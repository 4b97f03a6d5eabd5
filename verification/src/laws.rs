//! Crate-wide properties, stated and proved over the model.
//!
//! Each law is a public proof function whose hypotheses are only the
//! well-formedness of the state and what the law itself assumes; the
//! conclusions are stated over the same spec functions that the executable
//! operations' contracts use, so each law composes directly with them.

use vstd::prelude::*;

use crate::model::{
    classify, fetch_state, fetched_type, is_exc_class, is_exc_instance, is_normalized, norm_state,
    norm_type, norm_value, obj, occupied, restored, wf, Classified, StateV,
};

verus! {

/// Classification is total and exhaustive: every object falls in exactly
/// one of the three cases — exception instance, exception class, or
/// neither. The two positive conditions exclude each other (an instance is
/// never a class object), so no object is ever mapped to two cases and
/// none is left unmapped.
pub proof fn lemma_classification_total(s: StateV, id: usize)
    ensures
        classify(s, id) is ExcInstance <==> is_exc_instance(s, id),
        classify(s, id) is ExcClass <==> (is_exc_class(s, id) && !is_exc_instance(s, id)),
        classify(s, id) is NotAnException <==> (!is_exc_instance(s, id) && !is_exc_class(s, id)),
        !(is_exc_instance(s, id) && is_exc_class(s, id)),
{
}

/// Fetching from an empty slot yields the fallback internal-error type with
/// no value and no traceback, and leaves the slot empty: with no
/// intervening error-setting, a second fetch reports exactly the same
/// triple of ids.
pub proof fn lemma_fetch_empty_slot(s: StateV)
    requires
        wf(s),
        !occupied(s),
    ensures
        fetched_type(s) == s.system_error,
        !occupied(fetch_state(s)),
        fetch_state(s).exc_value == 0 && fetch_state(s).exc_trace == 0,
        fetched_type(fetch_state(s)) == s.system_error,
        fetch_state(s).system_error == s.system_error,
{
}

/// Fetching the pending error and immediately restoring it puts the
/// runtime back in exactly the state it was in — in particular the
/// observable `occurred` is unchanged, true before and after.
pub proof fn lemma_fetch_restore_roundtrip(s: StateV)
    requires
        wf(s),
        occupied(s),
    ensures
        restored(fetch_state(s), s.exc_type, s.exc_value, s.exc_trace) == s,
        occupied(restored(fetch_state(s), s.exc_type, s.exc_value, s.exc_trace)) == occupied(s),
{
    let s2 = restored(fetch_state(s), s.exc_type, s.exc_value, s.exc_trace);
    assert(s2 =~= s);
}

/// Normalization is idempotent: on a pair that is already normalized (the
/// value an instance of exactly the stated type) it changes neither the
/// runtime state nor the reported type and value. Hence requesting the
/// instance twice hands out handles to the same underlying object.
pub proof fn lemma_normalize_idempotent(s: StateV, t: usize, v: usize)
    requires
        wf(s),
        is_normalized(s, t, v),
    ensures
        norm_state(s, t, v) == s,
        norm_type(s, t, v) == t,
        norm_value(s, t, v) == v,
{
}

} // verus!
