//! Deriving the output path of a variant from the source path, the
//! variant width and the active compression settings.
//!
//! Paths are handled as byte strings.  The separators looked for — `/`
//! and `.` — are ASCII, so scanning bytes is exact on any UTF-8 path.
//! The naming scheme is `<dir>/optimized/<stem>_<width>[_<quality>].<ext>`,
//! where `<ext>` is the source extension, or `webp` when the WebP encoder
//! is active.

use vstd::prelude::*;
use crate::bytes::{push_range, rfind, rfind_byte_from};
use crate::compress::{Compressor, Encoder};
use crate::errors::{OptError, PathErrorKind};

verus! {

/// ASCII `/`, the path separator.
pub const SLASH: u8 = 47;

/// ASCII `.`, the extension separator.
pub const DOT: u8 = 46;

/// ASCII `_`, the suffix separator of the naming scheme.
pub const UNDERSCORE: u8 = 95;

/// The bytes of `"optimized/"`, the output subdirectory segment.
pub open spec fn optimized_dir() -> Seq<u8> {
    seq![111u8, 112u8, 116u8, 105u8, 109u8, 105u8, 122u8, 101u8, 100u8, 47u8]
}

/// The bytes of `"webp"`, the extension the WebP encoder forces.
pub open spec fn webp_ext() -> Seq<u8> {
    seq![119u8, 101u8, 98u8, 112u8]
}

/// Everything up to and including the last `/` of `base`; empty when
/// `base` holds no separator (a bare file name lies in the current
/// directory).
pub open spec fn dir_prefix(base: Seq<u8>) -> Seq<u8> {
    match rfind(base, SLASH) {
        Some(i) => base.take(i + 1),
        None => Seq::<u8>::empty(),
    }
}

/// The file-name part of `base`: what follows its last `/`, or all of it.
pub open spec fn file_name_of(base: Seq<u8>) -> Seq<u8> {
    match rfind(base, SLASH) {
        Some(i) => base.skip(i + 1),
        None => base,
    }
}

/// The stem of a file name: what precedes its last `.`.  A dot in first
/// position marks a hidden file, not an extension, so the stem is then
/// the whole name.
pub open spec fn stem_of(name: Seq<u8>) -> Seq<u8> {
    match rfind(name, DOT) {
        Some(p) => if p > 0 {
            name.take(p)
        } else {
            name
        },
        None => name,
    }
}

/// The extension of a file name: what follows its last `.`, absent when
/// there is no dot past the first position.
pub open spec fn ext_of(name: Seq<u8>) -> Option<Seq<u8>> {
    match rfind(name, DOT) {
        Some(p) => if p > 0 {
            Some(name.skip(p + 1))
        } else {
            None
        },
        None => None,
    }
}

/// The decimal digits of `n`, most significant first.
pub open spec fn dec_digits(n: nat) -> Seq<u8>
    decreases n,
{
    if n < 10 {
        seq![(48 + n) as u8]
    } else {
        dec_digits(n / 10) + seq![(48 + n % 10) as u8]
    }
}

/// The destination path for one variant, or the reason none exists.
///
/// The variant is written beside the source, under an `optimized`
/// subdirectory; its file stem is the source stem with `_<width>`
/// appended.  Active compression appends `_<quality>` as well and decides
/// the extension: `webp` under the WebP encoder, the source extension
/// under the baseline encoder.  Without compression the source extension
/// is kept and no quality suffix appears.  An empty path, an empty file
/// name, or a missing extension (where one is needed) is an error.
pub open spec fn save_path_spec(base: Seq<u8>, width: nat, comp: Option<Compressor>) -> Result<
    Seq<u8>,
    OptError,
> {
    if base.len() == 0 {
        Err(OptError::PathError { kind: PathErrorKind::MissingParent })
    } else {
        let name = file_name_of(base);
        if name.len() == 0 {
            Err(OptError::PathError { kind: PathErrorKind::MissingStem })
        } else {
            let head = dir_prefix(base) + optimized_dir() + stem_of(name) + seq![UNDERSCORE]
                + dec_digits(width);
            match comp {
                None => match ext_of(name) {
                    None => Err(OptError::PathError { kind: PathErrorKind::MissingExtension }),
                    Some(ext) => Ok(head + seq![DOT] + ext),
                },
                Some(c) => {
                    let qhead = head + seq![UNDERSCORE] + dec_digits(c.quality as nat) + seq![DOT];
                    match c.encoder {
                        Encoder::WebP => Ok(qhead + webp_ext()),
                        Encoder::MozJpeg => match ext_of(name) {
                            None => Err(
                                OptError::PathError { kind: PathErrorKind::MissingExtension },
                            ),
                            Some(ext) => Ok(qhead + ext),
                        },
                    }
                },
            }
        }
    }
}

/// Appends the decimal rendering of `n` to `out`.
pub fn push_decimal(out: &mut Vec<u8>, n: usize)
    ensures
        final(out)@ == old(out)@ + dec_digits(n as nat),
    decreases n,
{
    if n >= 10 {
        push_decimal(out, n / 10);
    }
    out.push(48 + (n % 10) as u8);
    proof {
        if n >= 10 {
            assert(old(out)@ + dec_digits((n / 10) as nat) + seq![(48 + n % 10) as u8] =~= old(
                out,
            )@ + dec_digits(n as nat));
        }
    }
}

/// Appends the `"optimized/"` segment to `out`.
fn push_optimized_dir(out: &mut Vec<u8>)
    ensures
        final(out)@ == old(out)@ + optimized_dir(),
{
    out.push(111);
    out.push(112);
    out.push(116);
    out.push(105);
    out.push(109);
    out.push(105);
    out.push(122);
    out.push(101);
    out.push(100);
    out.push(47);
    proof {
        assert(out@ =~= old(out)@ + optimized_dir());
    }
}

/// Appends the `"webp"` extension to `out`.
fn push_webp_ext(out: &mut Vec<u8>)
    ensures
        final(out)@ == old(out)@ + webp_ext(),
{
    out.push(119);
    out.push(101);
    out.push(98);
    out.push(112);
    proof {
        assert(out@ =~= old(out)@ + webp_ext());
    }
}

/// Computes the destination path for one variant of width `width`, under
/// the compression settings `comp`, exactly as [`save_path_spec`] lays
/// it down.
pub fn save_path(base: &Vec<u8>, width: usize, comp: &Option<Compressor>) -> (r: Result<
    Vec<u8>,
    OptError,
>)
    ensures
        match r {
            Ok(p) => save_path_spec(base@, width as nat, *comp) == Ok::<Seq<u8>, OptError>(p@),
            Err(e) => save_path_spec(base@, width as nat, *comp) == Err::<Seq<u8>, OptError>(e),
        },
{
    if base.len() == 0 {
        return Err(OptError::PathError { kind: PathErrorKind::MissingParent });
    }
    let slash = rfind_byte_from(base, SLASH, 0);
    proof {
        assert(base@.skip(0) =~= base@);
    }
    let name_start: usize = match slash {
        Some(i) => i + 1,
        None => 0,
    };
    let ghost name = file_name_of(base@);
    proof {
        assert(base@.take(name_start as int) =~= base@.subrange(0, name_start as int));
        assert(name =~= base@.skip(name_start as int));
        assert(dir_prefix(base@) =~= base@.subrange(0, name_start as int));
    }
    if name_start == base.len() {
        return Err(OptError::PathError { kind: PathErrorKind::MissingStem });
    }
    let dot = rfind_byte_from(base, DOT, name_start);
    let stem_end: usize = match dot {
        Some(p) => if p > name_start {
            p
        } else {
            base.len()
        },
        None => base.len(),
    };
    proof {
        assert(stem_of(name) =~= base@.subrange(name_start as int, stem_end as int));
        match dot {
            Some(p) => {
                if p > name_start {
                    assert(ext_of(name) == Some(name.skip(p - name_start + 1)));
                    assert(name.skip(p - name_start + 1) =~= base@.subrange(
                        p + 1,
                        base@.len() as int,
                    ));
                } else {
                    assert(ext_of(name) is None);
                }
            },
            None => {
                assert(ext_of(name) is None);
            },
        }
    }
    let mut out: Vec<u8> = Vec::new();
    push_range(&mut out, base, 0, name_start);
    push_optimized_dir(&mut out);
    push_range(&mut out, base, name_start, stem_end);
    out.push(UNDERSCORE);
    push_decimal(&mut out, width);
    let ghost head = dir_prefix(base@) + optimized_dir() + stem_of(name) + seq![UNDERSCORE]
        + dec_digits(width as nat);
    proof {
        assert(out@ =~= head);
    }
    match comp {
        None => {
            match dot {
                Some(p) => {
                    if p > name_start {
                        out.push(DOT);
                        push_range(&mut out, base, p + 1, base.len());
                        proof {
                            assert(out@ =~= head + seq![DOT] + ext_of(name).unwrap());
                        }
                        Ok(out)
                    } else {
                        Err(OptError::PathError { kind: PathErrorKind::MissingExtension })
                    }
                },
                None => Err(OptError::PathError { kind: PathErrorKind::MissingExtension }),
            }
        },
        Some(c) => {
            out.push(UNDERSCORE);
            push_decimal(&mut out, c.quality as usize);
            out.push(DOT);
            let ghost qhead = head + seq![UNDERSCORE] + dec_digits(c.quality as nat) + seq![DOT];
            proof {
                assert(out@ =~= qhead);
            }
            match c.encoder {
                Encoder::WebP => {
                    push_webp_ext(&mut out);
                    proof {
                        assert(out@ =~= qhead + webp_ext());
                    }
                    Ok(out)
                },
                Encoder::MozJpeg => {
                    match dot {
                        Some(p) => {
                            if p > name_start {
                                push_range(&mut out, base, p + 1, base.len());
                                proof {
                                    assert(out@ =~= qhead + ext_of(name).unwrap());
                                }
                                Ok(out)
                            } else {
                                Err(OptError::PathError { kind: PathErrorKind::MissingExtension })
                            }
                        },
                        None => Err(
                            OptError::PathError { kind: PathErrorKind::MissingExtension },
                        ),
                    }
                },
            }
        },
    }
}

/// The naming scheme is deterministic: two derivations from identical
/// inputs agree.
pub proof fn lemma_save_path_deterministic(
    base: Seq<u8>,
    width: nat,
    comp: Option<Compressor>,
    r1: Result<Seq<u8>, OptError>,
    r2: Result<Seq<u8>, OptError>,
)
    requires
        r1 == save_path_spec(base, width, comp),
        r2 == save_path_spec(base, width, comp),
    ensures
        r1 == r2,
{
}

/// With compression absent, no quality suffix is appended and the source
/// extension is kept: the path is the head — directory, `optimized`
/// segment, stem and `_<width>` — followed directly by a dot and the
/// source extension.
pub proof fn lemma_raw_save_shape(base: Seq<u8>, width: nat)
    requires
        save_path_spec(base, width, None) is Ok,
    ensures
        ext_of(file_name_of(base)) is Some,
        save_path_spec(base, width, None) == Ok::<Seq<u8>, OptError>(
            dir_prefix(base) + optimized_dir() + stem_of(file_name_of(base)) + seq![UNDERSCORE]
                + dec_digits(width) + seq![DOT] + ext_of(file_name_of(base)).unwrap(),
        ),
{
}

/// With compression present and the WebP encoder selected, the derived
/// path always ends in `.webp`, whatever the source extension.
pub proof fn lemma_webp_path_extension(base: Seq<u8>, width: nat, c: Compressor)
    requires
        c.encoder == Encoder::WebP,
        save_path_spec(base, width, Some(c)) is Ok,
    ensures
        ({
            let p = save_path_spec(base, width, Some(c)).unwrap();
            &&& p.len() >= 5
            &&& p.skip(p.len() - 5) == seq![DOT] + webp_ext()
        }),
{
    let p = save_path_spec(base, width, Some(c)).unwrap();
    let name = file_name_of(base);
    let head = dir_prefix(base) + optimized_dir() + stem_of(name) + seq![UNDERSCORE] + dec_digits(
        width,
    );
    let qhead = head + seq![UNDERSCORE] + dec_digits(c.quality as nat) + seq![DOT];
    assert(p == qhead + webp_ext());
    assert(p.skip(p.len() - 5) =~= seq![DOT] + webp_ext());
}

} // verus!
