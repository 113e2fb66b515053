//! The bookkeeping handle for one constructed model instance: parameter
//! counts, the threading precondition, buffer-shape contracts, and the
//! library-identity check for generator use.
//!
//! The caller performs the foreign construction and hands its raw outcome
//! to [`Model::new`]: the returned instance address (zero for null), the
//! model's configuration string and reported parameter counts when the
//! instance exists, and the state of the error channel. From then on the
//! dimension queries are verified arithmetic over the recorded counts,
//! and each numeric operation has an exec predicate stating exactly the
//! buffer shapes it demands. A shape violation is a caller bug, not a
//! runtime condition: callers must check and fail loudly before the
//! foreign call, never truncate or read out of bounds.

use crate::error::BridgeStanError;
use crate::error::ErrorSlot;
use crate::library::LibraryRef;
use crate::library::StanLibrary;
use crate::rng::Rng;
use crate::text::seq_contains;
use crate::text::str_contains;
use vstd::pervasive::cloned;
use vstd::prelude::*;

verus! {

/// The marker a model library's configuration string carries iff the
/// library was compiled with threading support.
pub open spec fn threads_marker() -> Seq<char> {
    "STAN_THREADS=true"@
}

/// Whether a configuration string asserts threading support. Only a model
/// whose configuration does is safe to share across threads, so
/// construction fails without this.
pub open spec fn threading_supported(config: Seq<char>) -> bool {
    seq_contains(config, threads_marker())
}

/// The parameter counts of one constructed model, derived from the four
/// combinations the foreign side reports: the base count, the extra
/// counts contributed by transformed parameters and by generated
/// quantities, and the count on the unconstrained scale.
#[derive(Clone, Copy, PartialEq, Eq, Structural, Debug)]
pub struct ParamCounts {
    base: usize,
    tp_extra: usize,
    gq_extra: usize,
    unc: usize,
}

impl ParamCounts {
    /// The count with both inclusion flags off.
    pub closed spec fn spec_base(&self) -> usize {
        self.base
    }

    /// The additional count contributed by transformed parameters.
    pub closed spec fn spec_tp_extra(&self) -> usize {
        self.tp_extra
    }

    /// The additional count contributed by generated quantities.
    pub closed spec fn spec_gq_extra(&self) -> usize {
        self.gq_extra
    }

    /// The count on the unconstrained scale.
    pub closed spec fn spec_unc(&self) -> usize {
        self.unc
    }

    /// Every combination of the counts fits in a `usize`.
    pub open spec fn wf(&self) -> bool {
        self.spec_base() + self.spec_tp_extra() + self.spec_gq_extra() <= usize::MAX
    }

    /// The constrained-scale count for a choice of inclusion flags.
    pub open spec fn spec_total(&self, include_tp: bool, include_gq: bool) -> int {
        self.spec_base() + (if include_tp {
            self.spec_tp_extra() as int
        } else {
            0
        }) + (if include_gq {
            self.spec_gq_extra() as int
        } else {
            0
        })
    }

    /// Derive the counts from the four numbers the foreign side reports:
    /// with both flags off, with only transformed parameters, with only
    /// generated quantities, and with both; plus the unconstrained count.
    /// The reports are accepted iff they are consistent, that is, iff each
    /// flag contributes a fixed nonnegative extra count. Inconsistent
    /// reports are a contract violation of the foreign interface and the
    /// caller must fail loudly on `None`.
    pub fn from_reports(both_off: usize, with_tp: usize, with_gq: usize, with_both: usize, unc: usize) -> (r:
        Option<ParamCounts>)
        ensures
            r is Some <==> (both_off <= with_tp && both_off <= with_gq && with_both == with_tp
                + with_gq - both_off),
            r matches Some(c) ==> c.wf() && c.spec_base() == both_off && c.spec_tp_extra()
                == with_tp - both_off && c.spec_gq_extra() == with_gq - both_off && c.spec_unc()
                == unc,
    {
        if both_off <= with_tp && both_off <= with_gq {
            let tp_extra = with_tp - both_off;
            let gq_extra = with_gq - both_off;
            if with_both >= with_tp && with_both - with_tp == gq_extra {
                Some(ParamCounts { base: both_off, tp_extra, gq_extra, unc })
            } else {
                None
            }
        } else {
            None
        }
    }
}

/// Dimension counts are monotonic in the inclusion flags: enabling
/// `include_tp` or `include_gq`, or both, never decreases the
/// constrained-scale count a model reports.
pub proof fn lemma_param_num_monotonic(c: ParamCounts, tp1: bool, gq1: bool, tp2: bool, gq2: bool)
    requires
        tp1 ==> tp2,
        gq1 ==> gq2,
    ensures
        c.spec_total(tp1, gq1) <= c.spec_total(tp2, gq2),
{
}

/// A model instance with data, tied to the library instance it was
/// constructed from. Once constructed — which includes the threading
/// check — a model may be shared across threads and evaluated
/// concurrently without further locking.
pub struct Model<T: LibraryRef> {
    handle: usize,
    counts: ParamCounts,
    lib: T,
}

impl<T: LibraryRef> Model<T> {
    /// The foreign instance's address, handed in at construction.
    pub closed spec fn spec_handle(&self) -> usize {
        self.handle
    }

    /// The recorded parameter counts.
    pub closed spec fn spec_counts(&self) -> ParamCounts {
        self.counts
    }

    /// The library access this handle keeps.
    pub closed spec fn spec_lib(&self) -> T {
        self.lib
    }

    /// The identity token of the library this model came from.
    pub open spec fn spec_lib_id(&self) -> u64 {
        self.spec_lib().lib_view().spec_id()
    }

    /// A live handle holds a nonnull foreign instance and consistent
    /// counts.
    pub open spec fn wf(&self) -> bool {
        self.spec_handle() != 0 && self.spec_counts().wf()
    }

    /// Interpret the outcome of the foreign model constructor. `handle`
    /// is the address the constructor returned, zero for null. For a
    /// nonnull handle the caller also passes `parts`: the model's
    /// configuration string and its parameter counts, both read from the
    /// fresh instance. `err` is the state of the error channel after the
    /// constructor call.
    ///
    /// A null handle means construction was rejected and yields
    /// [`BridgeStanError::ConstructFailed`] carrying the received
    /// diagnostic verbatim. A nonnull handle whose configuration does not
    /// assert threading support is rejected with
    /// [`BridgeStanError::StanThreads`]: accepting it would make the
    /// later claim of thread-safety silently wrong. On either rejection
    /// the caller still owns the foreign instance and must destruct it.
    pub fn new(lib: T, handle: usize, parts: Option<(String, ParamCounts)>, err: ErrorSlot) -> (r:
        Result<Model<T>, BridgeStanError>)
        requires
            (handle != 0) == (parts is Some),
            handle == 0 ==> err.has_message(),
            parts matches Some(p) ==> p.1.wf(),
        ensures
            r is Ok <==> (parts matches Some(p) && threading_supported(p.0@)),
            r matches Ok(m) ==> m.wf() && m.spec_handle() == handle && m.spec_lib() == lib
                && (parts matches Some(p) && m.spec_counts() == p.1),
            handle == 0 ==> (r matches Err(BridgeStanError::ConstructFailed(d)) && d@
                == err.spec_message()),
            parts matches Some(p) ==> (!threading_supported(p.0@) ==> (r matches Err(
                BridgeStanError::StanThreads(c),
            ) && c@ == p.0@)),
    {
        match parts {
            None => Err(BridgeStanError::ConstructFailed(err.message())),
            Some((config, counts)) => {
                if str_contains(config.as_str(), "STAN_THREADS=true") {
                    Ok(Model { handle, counts, lib })
                } else {
                    Err(BridgeStanError::StanThreads(config))
                }
            },
        }
    }

    /// The foreign instance's address, for the caller to pass into
    /// foreign calls and, at the end of the handle's life, into the
    /// foreign destructor.
    pub fn handle(&self) -> (r: usize)
        ensures
            r == self.spec_handle(),
    {
        self.handle
    }

    /// Return a reference to the underlying library.
    pub fn ref_library(&self) -> (r: &StanLibrary)
        ensures
            *r == self.spec_lib().lib_view(),
    {
        self.lib.library()
    }

    /// Interpret the outcome of constructing a generator from the library
    /// underlying this model, as [`Rng::new`] does. The generator may
    /// then be used with this model, or any model from the same library
    /// instance.
    pub fn new_rng(&self, handle: usize, err: ErrorSlot) -> (r: Result<
        Rng<&StanLibrary>,
        BridgeStanError,
    >)
        requires
            handle == 0 ==> err.has_message(),
        ensures
            r is Ok <==> handle != 0,
            r matches Ok(rng) ==> rng.wf() && rng.spec_handle() == handle && rng.spec_lib_id()
                == self.spec_lib_id(),
            handle == 0 ==> (r matches Err(BridgeStanError::ConstructFailed(m)) && m@
                == err.spec_message()),
    {
        Rng::new(self.ref_library(), handle, err)
    }

    /// Number of parameters on the constrained scale, counting
    /// transformed parameters and generated quantities if requested.
    pub fn param_num(&self, include_tp: bool, include_gq: bool) -> (n: usize)
        requires
            self.wf(),
        ensures
            n == self.spec_counts().spec_total(include_tp, include_gq),
    {
        let mut n = self.counts.base;
        if include_tp {
            n = n + self.counts.tp_extra;
        }
        if include_gq {
            n = n + self.counts.gq_extra;
        }
        n
    }

    /// Number of parameters on the unconstrained scale: the length the
    /// density and gradient operations demand of their buffers.
    pub fn param_unc_num(&self) -> (n: usize)
        ensures
            n == self.spec_counts().spec_unc(),
    {
        self.counts.unc
    }

    /// Whether a buffer of length `len` has exactly one cell per
    /// unconstrained parameter, as the density operations and the
    /// unconstraining of an encoded point demand.
    pub fn matches_unc_len(&self, len: usize) -> (ok: bool)
        ensures
            ok == (len == self.spec_counts().spec_unc()),
    {
        len == self.counts.unc
    }

    /// The shapes the gradient operation demands: point and gradient
    /// buffers both of the unconstrained length.
    pub fn gradient_shape_ok(&self, theta_unc_len: usize, grad_len: usize) -> (ok: bool)
        ensures
            ok == (theta_unc_len == self.spec_counts().spec_unc() && grad_len
                == self.spec_counts().spec_unc()),
    {
        theta_unc_len == self.counts.unc && grad_len == self.counts.unc
    }

    /// The number of cells a Hessian buffer needs: the square of the
    /// unconstrained count. `None` iff that square does not fit in a
    /// `usize`; the overflow is reported, never truncated.
    pub fn hessian_size(&self) -> (r: Option<usize>)
        ensures
            r is Some <==> self.spec_counts().spec_unc() * self.spec_counts().spec_unc()
                <= usize::MAX,
            r matches Some(n) ==> n == self.spec_counts().spec_unc()
                * self.spec_counts().spec_unc(),
    {
        self.counts.unc.checked_mul(self.counts.unc)
    }

    /// The shapes the Hessian operation demands: point and gradient
    /// buffers of the unconstrained length, and a Hessian buffer with the
    /// square of that length — which must itself be representable.
    pub fn hessian_shape_ok(&self, theta_unc_len: usize, grad_len: usize, hessian_len: usize) -> (ok:
        bool)
        ensures
            ok == (theta_unc_len == self.spec_counts().spec_unc() && grad_len
                == self.spec_counts().spec_unc() && self.spec_counts().spec_unc()
                * self.spec_counts().spec_unc() <= usize::MAX && hessian_len
                == self.spec_counts().spec_unc() * self.spec_counts().spec_unc()),
    {
        match self.hessian_size() {
            Some(square) => theta_unc_len == self.counts.unc && grad_len == self.counts.unc
                && hessian_len == square,
            None => false,
        }
    }

    /// The shapes the Hessian-vector-product operation demands: point,
    /// direction and output buffers all of the unconstrained length.
    pub fn hvp_shape_ok(&self, theta_unc_len: usize, v_len: usize, out_len: usize) -> (ok: bool)
        ensures
            ok == (theta_unc_len == self.spec_counts().spec_unc() && v_len
                == self.spec_counts().spec_unc() && out_len == self.spec_counts().spec_unc()),
    {
        theta_unc_len == self.counts.unc && v_len == self.counts.unc && out_len
            == self.counts.unc
    }

    /// The shapes the unconstraining operation demands: a constrained
    /// point with the base count of cells, and an output buffer of the
    /// unconstrained length.
    pub fn unconstrain_shape_ok(&self, theta_len: usize, theta_unc_len: usize) -> (ok: bool)
        requires
            self.wf(),
        ensures
            ok == (theta_len == self.spec_counts().spec_total(false, false) && theta_unc_len
                == self.spec_counts().spec_unc()),
    {
        theta_len == self.counts.base && theta_unc_len == self.counts.unc
    }

    /// Whether this model and `rng` come from the same library instance.
    /// Only then may the two be used together: the foreign layouts of
    /// model and generator are compatible only within one loaded
    /// instance, so callers must fail loudly when this is false.
    pub fn can_use_rng<R: LibraryRef>(&self, rng: &Rng<R>) -> (ok: bool)
        ensures
            ok == (self.spec_lib_id() == rng.spec_lib_id()),
    {
        self.lib.library().id() == rng.library_id()
    }

    /// Everything the constrain operation demands of its arguments: a
    /// point of the unconstrained length, an output buffer sized by the
    /// requested inclusion flags, a generator whenever generated
    /// quantities are requested, and — whenever a generator is supplied —
    /// one from this model's own library instance.
    pub fn constrain_args_ok<R: LibraryRef>(
        &self,
        theta_unc_len: usize,
        include_tp: bool,
        include_gq: bool,
        out_len: usize,
        rng: Option<&Rng<R>>,
    ) -> (ok: bool)
        requires
            self.wf(),
        ensures
            ok == (theta_unc_len == self.spec_counts().spec_unc() && out_len
                == self.spec_counts().spec_total(include_tp, include_gq) && (include_gq
                ==> rng is Some) && (rng matches Some(r) ==> r.spec_lib_id()
                == self.spec_lib_id())),
    {
        if theta_unc_len != self.counts.unc {
            return false;
        }
        if out_len != self.param_num(include_tp, include_gq) {
            return false;
        }
        match rng {
            Some(r) => self.can_use_rng(r),
            None => !include_gq,
        }
    }
}

impl<T: LibraryRef + Clone> Model<T> {
    /// Return a clone of the library access this model keeps, for
    /// constructing further handles against the same library instance.
    pub fn clone_library_ref(&self) -> (r: T)
        ensures
            cloned::<T>(self.spec_lib(), r),
    {
        self.lib.clone()
    }
}

} // verus!
