//! The orchestrator: decides, per requested variant, whether to resize,
//! whether to compress, with which settings, and where the result is to
//! be written.
//!
//! The library never touches the filesystem.  A run is computed as a
//! sequence of [`Variant`] values — destination path, pixel buffer,
//! dimensions and compression settings — which the thin driver around
//! the library encodes (the lossy encoders take a floating-point
//! quality, which verified code cannot hold) and writes, in order,
//! failing fast on the first error.

use vstd::prelude::*;
use crate::bytes::copy_bytes;
use crate::compress::{Compressor, Encoder, DEFAULT_QUALITY};
use crate::errors::OptError;
use crate::paths::{save_path, save_path_spec};
use crate::resample::{lanczos3_of, resize, resize_accepts, resize_err, ResizeConfig};

verus! {

/// A decoded source image: raw 8-bit RGB bytes, row-major, no alpha.
pub struct SourceImage {
    pub pixels: Vec<u8>,
    pub width: usize,
    pub height: usize,
}

impl SourceImage {
    /// The dimensions are positive and the buffer holds exactly three
    /// bytes per pixel.
    pub open spec fn wf(self) -> bool {
        &&& self.width > 0
        &&& self.height > 0
        &&& self.pixels@.len() == self.width * self.height * 3
    }
}

/// The pixel payload of one output and how it is to be persisted.
pub struct EncodeJob {
    pub pixels: Vec<u8>,
    pub width: usize,
    pub height: usize,
    /// `None` means: save the raw pixels in the source's own container
    /// format, with no lossy re-encoding.
    pub compression: Option<Compressor>,
}

/// One output of a run: where to write and what to write there.
pub struct Variant {
    pub path: Vec<u8>,
    pub job: EncodeJob,
}

/// The mathematical image of a [`Variant`], for contracts.
pub struct VariantModel {
    pub path: Seq<u8>,
    pub pixels: Seq<u8>,
    pub width: int,
    pub height: int,
    pub compression: Option<Compressor>,
}

impl Variant {
    pub open spec fn model(self) -> VariantModel {
        VariantModel {
            path: self.path@,
            pixels: self.job.pixels@,
            width: self.job.width as int,
            height: self.job.height as int,
            compression: self.job.compression,
        }
    }
}

/// The compressor after an encoder was chosen: an existing one keeps its
/// quality; otherwise one is created at the default quality.
pub open spec fn with_encoder(comp: Option<Compressor>, encoder: Encoder) -> Compressor {
    match comp {
        None => Compressor { quality: DEFAULT_QUALITY, encoder },
        Some(c) => Compressor { quality: c.quality, encoder },
    }
}

/// The compressor after a quality was chosen: an existing one keeps its
/// encoder; otherwise one is created with the baseline encoder.
pub open spec fn with_quality(comp: Option<Compressor>, quality: u8) -> Compressor {
    match comp {
        None => Compressor { quality, encoder: Encoder::MozJpeg },
        Some(c) => Compressor { quality, encoder: c.encoder },
    }
}

/// Owns the decoded source image and the requested variants, and drives
/// resampling, compression settings and path naming for one run.
pub struct Optimizer {
    pub img: SourceImage,
    pub base_path: Vec<u8>,
    pub target_sizes: Vec<(usize, usize)>,
    pub compressor: Option<Compressor>,
}

impl Optimizer {
    /// The single variant of a run without resize targets: the source
    /// pixels at their own dimensions, compressed.  Asking for it with no
    /// compression configured is a configuration error — nothing was
    /// requested; so is a pixel buffer that does not match its stated
    /// dimensions.
    pub open spec fn compress_self_spec(self) -> Result<VariantModel, OptError> {
        match self.compressor {
            None => Err(OptError::ConfigurationError),
            Some(c) => match save_path_spec(
                self.base_path@,
                self.img.width as nat,
                self.compressor,
            ) {
                Err(e) => Err(e),
                Ok(p) => if !self.img.wf() {
                    Err(OptError::ConfigurationError)
                } else {
                    Ok(
                        VariantModel {
                            path: p,
                            pixels: self.img.pixels@,
                            width: self.img.width as int,
                            height: self.img.height as int,
                            compression: Some(c),
                        },
                    )
                },
            },
        }
    }

    /// One resized variant: the source resampled to `target`, to be
    /// written at the derived path under the active compression settings.
    pub open spec fn resized_variant_spec(self, target: (usize, usize)) -> Result<
        VariantModel,
        OptError,
    > {
        match save_path_spec(self.base_path@, target.0 as nat, self.compressor) {
            Err(e) => Err(e),
            Ok(p) => {
                let config = ResizeConfig {
                    src_height: self.img.height,
                    src_width: self.img.width,
                    dest_height: target.1,
                    dest_width: target.0,
                };
                if !resize_accepts(self.img.pixels@.len() as int, config) {
                    Err(resize_err(config))
                } else {
                    Ok(
                        VariantModel {
                            path: p,
                            pixels: lanczos3_of(
                                self.img.pixels@,
                                self.img.width as int,
                                self.img.height as int,
                                target.0 as int,
                                target.1 as int,
                            ),
                            width: target.0 as int,
                            height: target.1 as int,
                            compression: self.compressor,
                        },
                    )
                }
            },
        }
    }

    /// The resized variants from index `i` on, in order, stopping at the
    /// first failure.
    pub open spec fn plan_spec_from(self, i: int) -> Result<Seq<VariantModel>, OptError>
        decreases self.target_sizes@.len() - i,
    {
        if i < 0 || i >= self.target_sizes@.len() {
            Ok(Seq::<VariantModel>::empty())
        } else {
            match self.resized_variant_spec(self.target_sizes@[i]) {
                Err(e) => Err(e),
                Ok(v) => match self.plan_spec_from(i + 1) {
                    Err(e) => Err(e),
                    Ok(rest) => Ok(seq![v] + rest),
                },
            }
        }
    }

    /// The first `count` targets each yield a variant: their paths derive
    /// and their resize requests are acceptable.  A run that reports a
    /// resampler failure got at least this far — the failure cannot mask
    /// an earlier path or configuration error.
    pub open spec fn plan_prefix_ok(self, count: int) -> bool {
        forall|j: int| 0 <= j < count ==> self.resized_variant_spec(
            #[trigger] self.target_sizes@[j],
        ) is Ok
    }

    /// A whole run: with no targets, the one self-compressed variant;
    /// otherwise every resized variant in the order requested.
    pub open spec fn optimize_spec(self) -> Result<Seq<VariantModel>, OptError> {
        if self.target_sizes@.len() == 0 {
            match self.compress_self_spec() {
                Err(e) => Err(e),
                Ok(v) => Ok(seq![v]),
            }
        } else {
            self.plan_spec_from(0)
        }
    }

    /// The variant at `index`: the self-compressed one when no targets
    /// are configured, else the resized variant of the target at `index`.
    pub open spec fn variant_spec(self, index: int) -> Result<VariantModel, OptError> {
        if self.target_sizes@.len() == 0 {
            self.compress_self_spec()
        } else {
            self.resized_variant_spec(self.target_sizes@[index])
        }
    }

    /// A fresh optimizer for one source image: no targets, no compression.
    pub fn new(img: SourceImage, img_path: Vec<u8>) -> (r: Optimizer)
        ensures
            r.img == img,
            r.base_path == img_path,
            r.target_sizes@ == Seq::<(usize, usize)>::empty(),
            r.compressor is None,
    {
        Optimizer { img, base_path: img_path, target_sizes: Vec::new(), compressor: None }
    }

    /// Chooses the encoder, creating a default-quality compressor if none
    /// was configured yet.
    pub fn set_encoder(&mut self, encoder: Encoder)
        ensures
            final(self).img == old(self).img,
            final(self).base_path == old(self).base_path,
            final(self).target_sizes == old(self).target_sizes,
            final(self).compressor == Some(with_encoder(old(self).compressor, encoder)),
    {
        match self.compressor {
            None => {
                let mut compressor = Compressor::new(DEFAULT_QUALITY);
                compressor.set_encoder(encoder);
                self.compressor = Some(compressor);
            },
            Some(c) => {
                let mut compressor = c;
                compressor.set_encoder(encoder);
                self.compressor = Some(compressor);
            },
        }
    }

    /// Chooses the quality, creating a baseline-encoder compressor if none
    /// was configured yet.
    pub fn set_quality(&mut self, quality: u8)
        ensures
            final(self).img == old(self).img,
            final(self).base_path == old(self).base_path,
            final(self).target_sizes == old(self).target_sizes,
            final(self).compressor == Some(with_quality(old(self).compressor, quality)),
    {
        match self.compressor {
            None => {
                self.compressor = Some(Compressor::new(quality));
            },
            Some(c) => {
                let mut compressor = c;
                compressor.set_quality(quality);
                self.compressor = Some(compressor);
            },
        }
    }

    /// Replaces the whole set of resize targets.
    pub fn set_targets(&mut self, target_sizes: Vec<(usize, usize)>)
        ensures
            final(self).img == old(self).img,
            final(self).base_path == old(self).base_path,
            final(self).compressor == old(self).compressor,
            final(self).target_sizes == target_sizes,
    {
        self.target_sizes = target_sizes;
    }

    /// Appends one resize target.
    pub fn add_target(&mut self, target: (usize, usize))
        ensures
            final(self).img == old(self).img,
            final(self).base_path == old(self).base_path,
            final(self).compressor == old(self).compressor,
            final(self).target_sizes@ == old(self).target_sizes@.push(target),
    {
        self.target_sizes.push(target);
    }

    /// The encode job for the source image at its own dimensions.
    ///
    /// Fails with `ConfigurationError` when no compressor is configured,
    /// or when the pixel buffer does not hold exactly three bytes per
    /// pixel of positive dimensions; succeeds otherwise, handing back the
    /// source pixels with the active compression settings.
    pub fn compress(&self) -> (r: Result<EncodeJob, OptError>)
        ensures
            match r {
                Ok(job) => {
                    &&& self.compressor is Some
                    &&& self.img.wf()
                    &&& job.pixels@ == self.img.pixels@
                    &&& job.width == self.img.width
                    &&& job.height == self.img.height
                    &&& job.compression == self.compressor
                },
                Err(e) => {
                    &&& e == OptError::ConfigurationError
                    &&& (self.compressor is None || !self.img.wf())
                },
            },
            self.compressor is Some && self.img.wf() ==> r is Ok,
    {
        let len = self.img.pixels.len();
        match self.compressor {
            None => Err(OptError::ConfigurationError),
            Some(c) => {
                if self.img.width == 0 || self.img.height == 0 {
                    return Err(OptError::ConfigurationError);
                }
                let pix = match self.img.width.checked_mul(self.img.height) {
                    Some(p) => p,
                    None => {
                        return Err(OptError::ConfigurationError);
                    },
                };
                let bytes = match pix.checked_mul(3) {
                    Some(b) => b,
                    None => {
                        return Err(OptError::ConfigurationError);
                    },
                };
                if len != bytes {
                    return Err(OptError::ConfigurationError);
                }
                Ok(
                    EncodeJob {
                        pixels: copy_bytes(&self.img.pixels),
                        width: self.img.width,
                        height: self.img.height,
                        compression: Some(c),
                    },
                )
            },
        }
    }

    /// The output path for a variant of width `w`, under the active
    /// compression settings.
    pub fn generate_save_path(&self, w: usize) -> (r: Result<Vec<u8>, OptError>)
        ensures
            match r {
                Ok(p) => save_path_spec(self.base_path@, w as nat, self.compressor) == Ok::<
                    Seq<u8>,
                    OptError,
                >(p@),
                Err(e) => save_path_spec(self.base_path@, w as nat, self.compressor) == Err::<
                    Seq<u8>,
                    OptError,
                >(e),
            },
    {
        save_path(&self.base_path, w, &self.compressor)
    }

    /// The single variant of a run without resize targets, exactly as
    /// [`Optimizer::compress_self_spec`] lays it down: path first, then
    /// the encode job.
    pub fn compress_self(&self) -> (r: Result<Variant, OptError>)
        ensures
            match r {
                Ok(v) => self.compress_self_spec() == Ok::<VariantModel, OptError>(v.model()),
                Err(e) => self.compress_self_spec() == Err::<VariantModel, OptError>(e),
            },
    {
        if self.compressor.is_none() {
            return Err(OptError::ConfigurationError);
        }
        let path = match self.generate_save_path(self.img.width) {
            Ok(p) => p,
            Err(e) => {
                return Err(e);
            },
        };
        let job = match self.compress() {
            Ok(j) => j,
            Err(e) => {
                return Err(e);
            },
        };
        Ok(Variant { path, job })
    }

    /// One resized variant.  An `Err` either is what the specification
    /// prescribes, or is a `ResizeError` the resampler reported on a
    /// request it accepts (it may fail to allocate).
    fn resized_variant(&self, target: (usize, usize)) -> (r: Result<Variant, OptError>)
        ensures
            match r {
                Ok(v) => self.resized_variant_spec(target) == Ok::<VariantModel, OptError>(
                    v.model(),
                ),
                Err(e) => self.resized_variant_spec(target) == Err::<VariantModel, OptError>(e)
                    || (e is ResizeError && self.resized_variant_spec(target) is Ok),
            },
    {
        let path = match self.generate_save_path(target.0) {
            Ok(p) => p,
            Err(e) => {
                return Err(e);
            },
        };
        let config = ResizeConfig {
            src_height: self.img.height,
            src_width: self.img.width,
            dest_height: target.1,
            dest_width: target.0,
        };
        let resized = match resize(&self.img.pixels, config) {
            Ok(v) => v,
            Err(e) => {
                return Err(e);
            },
        };
        Ok(
            Variant {
                path,
                job: EncodeJob {
                    pixels: resized,
                    width: target.0,
                    height: target.1,
                    compression: self.compressor,
                },
            },
        )
    }

    /// When every target up to `k` succeeds and the one at `k` fails with
    /// `e`, the whole plan from `lo` fails with `e`.
    proof fn lemma_plan_err(self, lo: int, k: int, e: OptError)
        requires
            0 <= lo <= k < self.target_sizes@.len(),
            forall|j: int| lo <= j < k ==> self.resized_variant_spec(
                #[trigger] self.target_sizes@[j],
            ) is Ok,
            self.resized_variant_spec(self.target_sizes@[k]) == Err::<VariantModel, OptError>(e),
        ensures
            self.plan_spec_from(lo) == Err::<Seq<VariantModel>, OptError>(e),
        decreases k - lo,
    {
        if lo < k {
            self.lemma_plan_err(lo + 1, k, e);
        }
    }

    /// When every target from `lo` on succeeds, the plan from `lo` is the
    /// sequence of their variants, in order.
    proof fn lemma_plan_ok(self, lo: int, models: Seq<VariantModel>)
        requires
            0 <= lo <= self.target_sizes@.len(),
            models.len() == self.target_sizes@.len() - lo,
            forall|j: int| lo <= j < self.target_sizes@.len() ==> self.resized_variant_spec(
                #[trigger] self.target_sizes@[j],
            ) == Ok::<VariantModel, OptError>(models[j - lo]),
        ensures
            self.plan_spec_from(lo) == Ok::<Seq<VariantModel>, OptError>(models),
        decreases self.target_sizes@.len() - lo,
    {
        if lo == self.target_sizes@.len() {
            assert(models =~= Seq::<VariantModel>::empty());
        } else {
            self.lemma_plan_ok(lo + 1, models.skip(1));
            assert(models =~= seq![models[0]] + models.skip(1));
        }
    }

    /// Resizes the source to every requested target, in the order given,
    /// failing fast on the first error.  With no targets configured the
    /// run is rejected: at least one resize target must be provided.
    ///
    /// An error either is exactly the plan's own first failure, or is the
    /// resampler's failure on an acceptable request — and then every
    /// variant up to and including the failing one had derived its path
    /// and passed its checks, so it masks no earlier error.
    pub fn resize_and_maybe_compress(&self) -> (r: Result<Vec<Variant>, OptError>)
        ensures
            match r {
                Ok(vs) => self.target_sizes@.len() > 0 && vs@.len() == self.target_sizes@.len()
                    && self.plan_spec_from(0) == Ok::<Seq<VariantModel>, OptError>(
                    vs@.map_values(|v: Variant| v.model()),
                ),
                Err(e) => {
                    &&& (self.target_sizes@.len() == 0 ==> e == OptError::ConfigurationError)
                    &&& (self.target_sizes@.len() > 0 ==> self.plan_spec_from(0) == Err::<
                        Seq<VariantModel>,
                        OptError,
                    >(e) || (e is ResizeError && exists|i: int|
                        0 <= i < self.target_sizes@.len() && #[trigger] self.plan_prefix_ok(i + 1)))
                },
            },
            self.target_sizes@.len() == 0 ==> r == Err::<Vec<Variant>, OptError>(
                OptError::ConfigurationError,
            ),
    {
        let n = self.target_sizes.len();
        if n == 0 {
            return Err(OptError::ConfigurationError);
        }
        let mut out: Vec<Variant> = Vec::new();
        let mut i: usize = 0;
        while i < n
            invariant
                n == self.target_sizes@.len(),
                i <= n,
                out@.len() == i,
                forall|j: int| 0 <= j < i ==> self.resized_variant_spec(
                    #[trigger] self.target_sizes@[j],
                ) == Ok::<VariantModel, OptError>(out@[j].model()),
            decreases n - i,
        {
            let t = self.target_sizes[i];
            match self.resized_variant(t) {
                Ok(v) => {
                    out.push(v);
                },
                Err(e) => {
                    proof {
                        if self.resized_variant_spec(t) == Err::<VariantModel, OptError>(e) {
                            self.lemma_plan_err(0, i as int, e);
                        } else {
                            assert(self.plan_prefix_ok(i + 1));
                        }
                    }
                    return Err(e);
                },
            }
            i = i + 1;
        }
        proof {
            let models = out@.map_values(|v: Variant| v.model());
            assert(forall|j: int| 0 <= j < self.target_sizes@.len() ==> self.resized_variant_spec(
                #[trigger] self.target_sizes@[j],
            ) == Ok::<VariantModel, OptError>(models[j]));
            self.lemma_plan_ok(0, models);
        }
        Ok(out)
    }

    /// How many variants a run produces: one per target, or a single one
    /// when no targets are configured.
    pub fn variant_count(&self) -> (r: usize)
        ensures
            self.target_sizes@.len() == 0 ==> r == 1,
            self.target_sizes@.len() > 0 ==> r == self.target_sizes@.len(),
    {
        if self.target_sizes.len() == 0 {
            1
        } else {
            self.target_sizes.len()
        }
    }

    /// The variant at `index`, computed on its own, so a driver can
    /// interleave computing and writing and still fail fast per variant.
    ///
    /// With no targets configured no resampling happens, so success is
    /// owed outright whenever the self-compress variant is well-formed;
    /// with targets, only the resampler's own failure on an acceptable
    /// request is left open.
    pub fn variant_at(&self, index: usize) -> (r: Result<Variant, OptError>)
        requires
            self.target_sizes@.len() == 0 ==> index == 0,
            self.target_sizes@.len() > 0 ==> index < self.target_sizes@.len(),
        ensures
            match r {
                Ok(v) => self.variant_spec(index as int) == Ok::<VariantModel, OptError>(v.model()),
                Err(e) => self.variant_spec(index as int) == Err::<VariantModel, OptError>(e) || (e
                    is ResizeError && self.target_sizes@.len() > 0 && self.variant_spec(
                    index as int,
                ) is Ok),
            },
            self.target_sizes@.len() == 0 && self.compress_self_spec() is Ok ==> r is Ok,
    {
        if self.target_sizes.len() == 0 {
            self.compress_self()
        } else {
            let t = self.target_sizes[index];
            self.resized_variant(t)
        }
    }

    /// One whole run, as a plan: with no targets, the source itself is
    /// compressed once (requesting nothing at all is a configuration
    /// error); otherwise each target is resized and paired with its
    /// destination path, in the order requested, failing fast on the
    /// first error.  No filesystem is touched: the caller writes the
    /// variants, in order.
    ///
    /// With no targets the run calls no outside code, so success is owed
    /// outright whenever the self-compress variant is well-formed.  With
    /// targets, an error either is exactly what the plan prescribes or is
    /// the resampler's own failure on an acceptable request — and then
    /// every variant up to and including the failing one had derived its
    /// path and passed its checks, so no earlier error was masked.
    pub fn optimize(&self) -> (r: Result<Vec<Variant>, OptError>)
        ensures
            match r {
                Ok(vs) => vs@.len() == (if self.target_sizes@.len() == 0 {
                    1int
                } else {
                    self.target_sizes@.len() as int
                }) && self.optimize_spec() == Ok::<Seq<VariantModel>, OptError>(
                    vs@.map_values(|v: Variant| v.model()),
                ),
                Err(e) => self.optimize_spec() == Err::<Seq<VariantModel>, OptError>(e) || (e
                    is ResizeError && self.target_sizes@.len() > 0 && exists|i: int|
                    0 <= i < self.target_sizes@.len() && #[trigger] self.plan_prefix_ok(i + 1)),
            },
            self.target_sizes@.len() == 0 && self.compress_self_spec() is Ok ==> r is Ok,
            self.target_sizes@.len() == 0 && self.compressor is None ==> r == Err::<
                Vec<Variant>,
                OptError,
            >(OptError::ConfigurationError),
    {
        if self.target_sizes.len() == 0 {
            match self.compress_self() {
                Ok(v) => {
                    let mut out: Vec<Variant> = Vec::new();
                    out.push(v);
                    proof {
                        assert(out@.map_values(|x: Variant| x.model()) =~= seq![v.model()]);
                    }
                    Ok(out)
                },
                Err(e) => Err(e),
            }
        } else {
            self.resize_and_maybe_compress()
        }
    }
}

} // verus!
