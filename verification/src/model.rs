//! Mathematical model of the embedded runtime's state.
//!
//! The runtime owns a heap of reference-counted objects, a single global
//! exception slot (three object ids, `0` meaning "no object"), a small
//! registry of well-known classes, and the observable side channels that the
//! bridge touches: the error-stream log, the "last error" introspection
//! fields, and the warning machinery. Every contract of the crate is stated
//! over this model; the executable state in [`crate::runtime`] carries it as
//! its view.

use vstd::prelude::*;

verus! {

/// Model of one reference-counted runtime object.
///
/// An object id is a `usize`; id `0` stands for the null pointer and never
/// names an object. Ids are never reused. `rc` is the object's reference
/// count; the bridge touches it only through acquire/release operations.
#[verifier::ext_equal]
pub struct ObjV {
    /// Current reference count; `0` means the object has been freed.
    pub rc: usize,
    /// True for class (type) objects.
    pub is_class: bool,
    /// True for classes that are valid exception classes.
    pub is_exc_class: bool,
    /// For a non-class object: the id of its class. Unused (`0`) for classes.
    pub class: usize,
    /// For a class: its own id followed by the ids of all its base classes,
    /// most derived first. Empty for non-class objects.
    pub ancestry: Seq<usize>,
    /// For an exception instance: the id of the constructor argument it was
    /// created from, `0` if it was created without arguments.
    pub arg: usize,
    /// For a string object: its characters.
    pub text: Option<Seq<char>>,
}

/// One recorded warning: the category class and the message text.
#[verifier::ext_equal]
pub struct WarnV {
    pub category: usize,
    pub message: Seq<char>,
}

/// The full model state of the embedded runtime.
#[verifier::ext_equal]
pub struct StateV {
    /// All objects ever created; the object with id `i` sits at index `i - 1`.
    pub heap: Seq<ObjV>,
    /// Global exception slot: pending error type, or `0` when no error is set.
    pub exc_type: usize,
    /// Global exception slot: pending error value (`0` when absent).
    pub exc_value: usize,
    /// Global exception slot: pending error traceback (`0` when absent).
    pub exc_trace: usize,
    /// Registry: the root exception class.
    pub base_exception: usize,
    /// Registry: the internal-error class used as fallback by `fetch`.
    pub system_error: usize,
    /// Registry: the type-mismatch class.
    pub type_error: usize,
    /// Registry: the plain-object class.
    pub object_type: usize,
    /// Registry: the string class.
    pub str_type: usize,
    /// Registry: the class of the `none` singleton.
    pub none_type: usize,
    /// The `none` singleton object.
    pub none: usize,
    /// Types of the errors printed to the runtime's error stream, in order.
    pub printed: Seq<usize>,
    /// "Last error" introspection fields (`0` when unset).
    pub last_type: usize,
    pub last_value: usize,
    pub last_trace: usize,
    /// Whether the warning machinery escalates warnings to errors.
    pub warn_as_error: bool,
    /// Warnings issued so far, oldest first.
    pub warn_log: Seq<WarnV>,
}

/// `id` names an object of the heap.
pub open spec fn valid(s: StateV, id: usize) -> bool {
    1 <= id && id <= s.heap.len()
}

/// The object named by `id` (meaningful only when `valid(s, id)`).
pub open spec fn obj(s: StateV, id: usize) -> ObjV {
    s.heap[id - 1]
}

/// `id` names an object that has not been freed.
pub open spec fn live(s: StateV, id: usize) -> bool {
    valid(s, id) && obj(s, id).rc >= 1
}

/// `id` names a class object.
pub open spec fn is_class_obj(s: StateV, id: usize) -> bool {
    valid(s, id) && obj(s, id).is_class
}

/// `id` names an exception class.
pub open spec fn is_exc_class(s: StateV, id: usize) -> bool {
    valid(s, id) && obj(s, id).is_class && obj(s, id).is_exc_class
}

/// `v` names an instance of class `t` or of a subclass of `t`.
pub open spec fn is_instance_of(s: StateV, v: usize, t: usize) -> bool {
    &&& valid(s, v)
    &&& !obj(s, v).is_class
    &&& is_class_obj(s, obj(s, v).class)
    &&& obj(s, obj(s, v).class).ancestry.contains(t)
}

/// `v` names an exception instance (an instance of an exception class).
pub open spec fn is_exc_instance(s: StateV, id: usize) -> bool {
    valid(s, id) && !obj(s, id).is_class && is_exc_class(s, obj(s, id).class)
}

/// Well-formedness of the object at heap index `i` (id `i + 1`). Beside the
/// structural conditions, a class that is not an exception class has no
/// exception class among its bases: deriving from an exception class makes a
/// class an exception class.
pub open spec fn wf_at(s: StateV, i: int) -> bool {
    let o = s.heap[i];
    &&& (o.is_class ==> {
        &&& o.ancestry.len() >= 1
        &&& o.ancestry[0] == (i + 1) as usize
        &&& forall|j: int| 0 <= j < o.ancestry.len() ==> is_class_obj(s, #[trigger] o.ancestry[j])
    })
    &&& (o.is_class && !o.is_exc_class ==> forall|j: int|
        0 <= j < o.ancestry.len() ==> !is_exc_class(s, #[trigger] o.ancestry[j]))
    &&& (o.is_exc_class ==> o.is_class)
    &&& (!o.is_class ==> is_class_obj(s, o.class))
    &&& (o.arg != 0 ==> valid(s, o.arg))
}

/// Well-formedness of the whole heap.
pub open spec fn wf_heap(s: StateV) -> bool {
    forall|i: int| 0 <= i < s.heap.len() ==> wf_at(s, i)
}

/// Well-formedness of the runtime state: the heap is consistent, the slot
/// holds at most one error whose type is an exception class, and the
/// registry names the objects it stands for.
pub open spec fn wf(s: StateV) -> bool {
    &&& wf_heap(s)
    &&& (s.exc_type != 0 ==> is_exc_class(s, s.exc_type))
    &&& (s.exc_value != 0 ==> valid(s, s.exc_value))
    &&& (s.exc_trace != 0 ==> valid(s, s.exc_trace))
    &&& (s.exc_type == 0 ==> s.exc_value == 0 && s.exc_trace == 0)
    &&& is_exc_class(s, s.base_exception)
    &&& is_exc_class(s, s.system_error)
    &&& is_exc_class(s, s.type_error)
    &&& is_class_obj(s, s.object_type)
    &&& !obj(s, s.object_type).is_exc_class
    &&& is_class_obj(s, s.str_type)
    &&& !obj(s, s.str_type).is_exc_class
    &&& is_class_obj(s, s.none_type)
    &&& !obj(s, s.none_type).is_exc_class
    &&& valid(s, s.none)
    &&& !obj(s, s.none).is_class
    &&& obj(s, s.none).class == s.none_type
    &&& (s.last_type != 0 ==> valid(s, s.last_type))
    &&& (s.last_value != 0 ==> valid(s, s.last_value))
    &&& (s.last_trace != 0 ==> valid(s, s.last_trace))
}

/// An error is pending in the global slot.
pub open spec fn occupied(s: StateV) -> bool {
    s.exc_type != 0
}

/// How many of the three ids `t`, `v`, `tb` equal `id`.
pub open spec fn ref_count3(t: usize, v: usize, tb: usize, id: usize) -> int {
    (if t == id {
        1int
    } else {
        0int
    }) + (if v == id {
        1int
    } else {
        0int
    }) + (if tb == id {
        1int
    } else {
        0int
    })
}

/// The three ids `t`, `v`, `tb` (each possibly null) own one reference each:
/// every object named among them has at least as many counted references as
/// it has occurrences.
pub open spec fn live3(s: StateV, t: usize, v: usize, tb: usize) -> bool {
    forall|id: usize|
        id != 0 && #[trigger] ref_count3(t, v, tb, id) > 0 ==> obj(s, id).rc >= ref_count3(
            t,
            v,
            tb,
            id,
        )
}

/// Two triples of ids own one reference each, all of them distinct
/// references: every object has at least as many counted references as it
/// has occurrences across the six positions.
pub open spec fn live6(
    s: StateV,
    t1: usize,
    v1: usize,
    tb1: usize,
    t2: usize,
    v2: usize,
    tb2: usize,
) -> bool {
    forall|id: usize|
        id != 0 ==> obj(s, id).rc >= #[trigger] ref_count3(t1, v1, tb1, id) + ref_count3(
            t2,
            v2,
            tb2,
            id,
        )
}

/// The triple `(t, v, tb)` may be written into the slot: its references and
/// the slot's current references are distinct, so releasing the slot's
/// leaves the triple's alive.
pub open spec fn can_restore(s: StateV, t: usize, v: usize, tb: usize) -> bool {
    live6(s, s.exc_type, s.exc_value, s.exc_trace, t, v, tb)
}

/// The references owned by the global slot are all live.
pub open spec fn slot_live(s: StateV) -> bool {
    live3(s, s.exc_type, s.exc_value, s.exc_trace)
}

/// The references owned by the "last error" fields are all live.
pub open spec fn last_live(s: StateV) -> bool {
    live3(s, s.last_type, s.last_value, s.last_trace)
}

/// `o` with its reference count replaced by `rc`.
pub open spec fn with_rc(o: ObjV, rc: usize) -> ObjV {
    ObjV { rc, ..o }
}

/// `s` with the reference count of `id` replaced by `rc`.
pub open spec fn set_rc(s: StateV, id: usize, rc: usize) -> StateV {
    StateV { heap: s.heap.update(id - 1, with_rc(obj(s, id), rc)), ..s }
}

/// `s` after acquiring one more reference to `id`.
pub open spec fn rc_plus(s: StateV, id: usize) -> StateV {
    set_rc(s, id, (obj(s, id).rc + 1) as usize)
}

/// `s` after releasing one reference to `id`.
pub open spec fn rc_minus(s: StateV, id: usize) -> StateV {
    set_rc(s, id, (obj(s, id).rc - 1) as usize)
}

/// `s` after releasing one reference to `id`, where `id` may be null.
pub open spec fn rc_minus_opt(s: StateV, id: usize) -> StateV {
    if id == 0 {
        s
    } else {
        rc_minus(s, id)
    }
}

/// `s` with the global slot cleared, its contents handed out to the caller.
pub open spec fn slot_cleared(s: StateV) -> StateV {
    StateV { exc_type: 0, exc_value: 0, exc_trace: 0, ..s }
}

/// The error type that `fetch` reports: the pending one, or the fallback
/// internal-error class when the slot is empty.
pub open spec fn fetched_type(s: StateV) -> usize {
    if s.exc_type == 0 {
        s.system_error
    } else {
        s.exc_type
    }
}

/// The runtime state after `fetch`: the slot is cleared; when it was empty a
/// fresh reference to the fallback class is acquired for the synthetic error.
pub open spec fn fetch_state(s: StateV) -> StateV {
    if s.exc_type == 0 {
        rc_plus(s, s.system_error)
    } else {
        slot_cleared(s)
    }
}

/// The runtime state after writing `(t, v, tb)` into the global slot. The
/// references previously held by the slot, if any, are released; the new
/// contents are owned by the slot without any count change.
pub open spec fn restored(s: StateV, t: usize, v: usize, tb: usize) -> StateV {
    let s1 = rc_minus_opt(rc_minus_opt(rc_minus_opt(s, s.exc_type), s.exc_value), s.exc_trace);
    StateV { exc_type: t, exc_value: v, exc_trace: tb, ..s1 }
}

/// The instance object that normalization creates for class `t` from the
/// constructor argument `v` (`0` for no argument). The new instance takes
/// over the reference to `v`.
pub open spec fn new_instance_obj(t: usize, v: usize) -> ObjV {
    ObjV {
        rc: 1,
        is_class: false,
        is_exc_class: false,
        class: t,
        ancestry: Seq::empty(),
        arg: v,
        text: None,
    }
}

/// A `(type, value)` pair is normalized: the value is an instance of exactly
/// the stated type.
pub open spec fn is_normalized(s: StateV, t: usize, v: usize) -> bool {
    is_instance_of(s, v, t) && obj(s, v).class == t
}

/// The error type after normalizing `(t, v)`: when the value is already an
/// instance of `t` or of a subclass, its own class (possibly more specific
/// than `t`); otherwise `t`, of which a fresh instance is created.
pub open spec fn norm_type(s: StateV, t: usize, v: usize) -> usize {
    if is_instance_of(s, v, t) {
        obj(s, v).class
    } else {
        t
    }
}

/// The error value after normalizing `(t, v)`: the value itself when it is
/// already an instance, otherwise the freshly created instance.
pub open spec fn norm_value(s: StateV, t: usize, v: usize) -> usize {
    if is_instance_of(s, v, t) {
        v
    } else {
        (s.heap.len() + 1) as usize
    }
}

/// The runtime state after normalizing `(t, v)`. When the value is an
/// instance of a strict subclass, the type is replaced by that subclass
/// (one reference acquired, one released); when the value is no instance of
/// `t`, a fresh instance is created from it and takes over its reference.
/// The traceback is never touched.
pub open spec fn norm_state(s: StateV, t: usize, v: usize) -> StateV {
    if is_instance_of(s, v, t) {
        if obj(s, v).class == t {
            s
        } else {
            rc_minus(rc_plus(s, obj(s, v).class), t)
        }
    } else {
        StateV { heap: s.heap.push(new_instance_obj(t, v)), ..s }
    }
}

/// The string object that the runtime creates for the text `msg`.
pub open spec fn string_obj(s: StateV, msg: Seq<char>) -> ObjV {
    ObjV {
        rc: 1,
        is_class: false,
        is_exc_class: false,
        class: s.str_type,
        ancestry: Seq::empty(),
        arg: 0,
        text: Some(msg),
    }
}

/// The plain object (instance of the plain-object class) that the runtime
/// creates.
pub open spec fn plain_obj(s: StateV) -> ObjV {
    ObjV {
        rc: 1,
        is_class: false,
        is_exc_class: false,
        class: s.object_type,
        ancestry: Seq::empty(),
        arg: 0,
        text: None,
    }
}

/// The class object that deriving a new exception class from `base`
/// creates: its ancestry is itself followed by the whole ancestry of `base`.
pub open spec fn subclass_obj(s: StateV, base: usize) -> ObjV {
    ObjV {
        rc: 1,
        is_class: true,
        is_exc_class: true,
        class: 0,
        ancestry: seq![(s.heap.len() + 1) as usize] + obj(s, base).ancestry,
        arg: 0,
        text: None,
    }
}

/// `s` with `o` appended as a fresh object (id `heap.len() + 1`).
pub open spec fn pushed(s: StateV, o: ObjV) -> StateV {
    StateV { heap: s.heap.push(o), ..s }
}

/// `o` may be appended to `s` without breaking well-formedness.
pub open spec fn pushable(s: StateV, o: ObjV) -> bool {
    &&& (o.is_class ==> {
        &&& o.ancestry.len() >= 1
        &&& o.ancestry[0] == (s.heap.len() + 1) as usize
        &&& forall|j: int| 1 <= j < o.ancestry.len() ==> is_class_obj(s, #[trigger] o.ancestry[j])
    })
    &&& (o.is_class && !o.is_exc_class ==> forall|j: int|
        1 <= j < o.ancestry.len() ==> !is_exc_class(s, #[trigger] o.ancestry[j]))
    &&& (o.is_exc_class ==> o.is_class)
    &&& (!o.is_class ==> is_class_obj(s, o.class))
    &&& (o.arg != 0 ==> valid(s, o.arg))
}

/// The runtime state after printing the pending error to the error stream.
/// The slot is emptied and the type of the error is appended to the log.
/// With `set_vars` the three references move into the "last error" fields,
/// whose previous occupants are released; without it they are released
/// directly.
pub open spec fn print_state(s: StateV, set_vars: bool) -> StateV {
    let t = s.exc_type;
    let v = s.exc_value;
    let tb = s.exc_trace;
    let s1 = StateV { exc_type: 0, exc_value: 0, exc_trace: 0, printed: s.printed.push(t), ..s };
    if set_vars {
        let s2 = rc_minus_opt(rc_minus_opt(rc_minus_opt(s1, s.last_type), s.last_value), s.last_trace);
        StateV { last_type: t, last_value: v, last_trace: tb, ..s2 }
    } else {
        rc_minus_opt(rc_minus_opt(rc_minus_opt(s1, t), v), tb)
    }
}

/// The runtime state after a warning escalated to an error: a fresh string
/// object is created from the message, a reference to the category is
/// acquired, and the pair is written into the slot (releasing any previous
/// occupants).
pub open spec fn warn_escalated(s: StateV, category: usize, msg: Seq<char>) -> StateV {
    let s1 = pushed(s, string_obj(s, msg));
    let s2 = rc_plus(s1, category);
    restored(s2, category, (s.heap.len() + 1) as usize, 0)
}

/// The runtime state after a warning that was merely recorded.
pub open spec fn warn_logged(s: StateV, category: usize, msg: Seq<char>) -> StateV {
    StateV { warn_log: s.warn_log.push(WarnV { category, message: msg }), ..s }
}

/// The three-way classification that `PyErr::from_instance` performs.
pub enum Classified {
    /// An exception instance: kept as the value, under its own class.
    ExcInstance,
    /// An exception class: kept as the type, the instance made lazily later.
    ExcClass,
    /// Anything else: replaced by a type-mismatch error.
    NotAnException,
}

/// Classification of an arbitrary object, total by construction.
pub open spec fn classify(s: StateV, id: usize) -> Classified {
    if is_exc_instance(s, id) {
        Classified::ExcInstance
    } else if is_exc_class(s, id) {
        Classified::ExcClass
    } else {
        Classified::NotAnException
    }
}

/// The matching rule of the runtime's "given exception matches" query:
/// class against class goes by the subclass relation, anything else by
/// identity.
pub open spec fn exc_matches(s: StateV, err_type: usize, target: usize) -> bool {
    if is_exc_class(s, err_type) && is_exc_class(s, target) {
        obj(s, err_type).ancestry.contains(target)
    } else {
        err_type == target
    }
}

/// A class object with the given ancestry, for the initial registry.
pub open spec fn init_class(exc: bool, ancestry: Seq<usize>) -> ObjV {
    ObjV {
        rc: 1,
        is_class: true,
        is_exc_class: exc,
        class: 0,
        ancestry,
        arg: 0,
        text: None,
    }
}

/// The runtime state right after initialization: the registry classes and
/// the `none` singleton, one reference each, no pending error, nothing
/// printed, warnings not escalated.
pub open spec fn init_state() -> StateV {
    StateV {
        heap: seq![
            init_class(false, seq![1usize]),
            init_class(true, seq![2usize]),
            init_class(true, seq![3usize, 2usize]),
            init_class(true, seq![4usize, 2usize]),
            init_class(false, seq![5usize]),
            init_class(false, seq![6usize]),
            ObjV {
                rc: 1,
                is_class: false,
                is_exc_class: false,
                class: 6,
                ancestry: Seq::empty(),
                arg: 0,
                text: None,
            },
        ],
        exc_type: 0,
        exc_value: 0,
        exc_trace: 0,
        base_exception: 2,
        system_error: 3,
        type_error: 4,
        object_type: 1,
        str_type: 5,
        none_type: 6,
        none: 7,
        printed: Seq::empty(),
        last_type: 0,
        last_value: 0,
        last_trace: 0,
        warn_as_error: false,
        warn_log: Seq::empty(),
    }
}

/// The initial state is well-formed.
pub proof fn lemma_init_wf()
    ensures
        wf(init_state()),
{
    let s = init_state();
    assert forall|i: int| 0 <= i < s.heap.len() implies wf_at(s, i) by {
        if i == 0 {
            assert(wf_at(s, 0));
        } else if i == 1 {
            assert(wf_at(s, 1));
        } else if i == 2 {
            assert(wf_at(s, 2));
        } else if i == 3 {
            assert(wf_at(s, 3));
        } else if i == 4 {
            assert(wf_at(s, 4));
        } else if i == 5 {
            assert(wf_at(s, 5));
        } else {
            assert(wf_at(s, 6));
        }
    }
}

/// Well-formedness only reads the heap, the registry, the slot and the
/// "last error" ids: a state with the same heap and registry stays
/// well-formed as long as its slot and "last error" fields name consistent
/// objects.
pub proof fn lemma_wf_frame(s: StateV, s2: StateV)
    requires
        wf(s),
        s2.heap == s.heap,
        s2.base_exception == s.base_exception,
        s2.system_error == s.system_error,
        s2.type_error == s.type_error,
        s2.object_type == s.object_type,
        s2.str_type == s.str_type,
        s2.none_type == s.none_type,
        s2.none == s.none,
        s2.exc_type != 0 ==> is_exc_class(s, s2.exc_type),
        s2.exc_value != 0 ==> valid(s, s2.exc_value),
        s2.exc_trace != 0 ==> valid(s, s2.exc_trace),
        s2.exc_type == 0 ==> s2.exc_value == 0 && s2.exc_trace == 0,
        s2.last_type != 0 ==> valid(s, s2.last_type),
        s2.last_value != 0 ==> valid(s, s2.last_value),
        s2.last_trace != 0 ==> valid(s, s2.last_trace),
    ensures
        wf(s2),
{
    assert forall|x: usize| is_class_obj(s2, x) == is_class_obj(s, x) && is_exc_class(s2, x)
        == is_exc_class(s, x) && valid(s2, x) == valid(s, x) by {
        if valid(s, x) {
            assert(obj(s2, x) == obj(s, x));
        }
    }
    assert forall|i: int| 0 <= i < s2.heap.len() implies wf_at(s2, i) by {
        assert(wf_at(s, i));
        let o = s.heap[i];
        if o.is_class {
            assert forall|j: int| 0 <= j < o.ancestry.len() implies is_class_obj(
                s2,
                #[trigger] o.ancestry[j],
            ) by {
                assert(is_class_obj(s, o.ancestry[j]));
            }
        }
        if o.is_class && !o.is_exc_class {
            assert forall|j: int| 0 <= j < o.ancestry.len() implies !is_exc_class(
                s2,
                #[trigger] o.ancestry[j],
            ) by {
                assert(!is_exc_class(s, o.ancestry[j]));
            }
        }
    }
}

/// Writing a triple into the slot releases only the slot's own references:
/// every object keeps at least its old count minus its occurrences in the
/// old slot.
pub proof fn lemma_restored_rc(s: StateV, t: usize, v: usize, tb: usize)
    requires
        wf(s),
    ensures
        forall|id: usize|
            valid(s, id) ==> valid(restored(s, t, v, tb), id) && obj(
                restored(s, t, v, tb),
                id,
            ).rc >= obj(s, id).rc - ref_count3(s.exc_type, s.exc_value, s.exc_trace, id),
{
    let s1 = rc_minus_opt(s, s.exc_type);
    let s2 = rc_minus_opt(s1, s.exc_value);
    let s3 = rc_minus_opt(s2, s.exc_trace);
    assert forall|id: usize| valid(s, id) implies valid(restored(s, t, v, tb), id) && obj(
        restored(s, t, v, tb),
        id,
    ).rc >= obj(s, id).rc - ref_count3(s.exc_type, s.exc_value, s.exc_trace, id) by {
        assert(obj(s1, id).rc >= obj(s, id).rc - (if s.exc_type == id {
            1int
        } else {
            0int
        }));
        assert(obj(s2, id).rc >= obj(s1, id).rc - (if s.exc_value == id {
            1int
        } else {
            0int
        }));
        assert(obj(s3, id).rc >= obj(s2, id).rc - (if s.exc_trace == id {
            1int
        } else {
            0int
        }));
        assert(obj(restored(s, t, v, tb), id) == obj(s3, id));
    }
}

/// Changing a reference count never disturbs well-formedness: `wf` does not
/// read counts.
pub proof fn lemma_wf_set_rc(s: StateV, id: usize, rc: usize)
    requires
        wf(s),
        valid(s, id),
    ensures
        wf(set_rc(s, id, rc)),
        forall|x: usize| #[trigger] valid(set_rc(s, id, rc), x) == valid(s, x),
        forall|x: usize|
            valid(s, x) ==> #[trigger] obj(set_rc(s, id, rc), x) == (if x == id {
                with_rc(obj(s, x), rc)
            } else {
                obj(s, x)
            }),
        forall|x: usize| #[trigger] is_class_obj(set_rc(s, id, rc), x) == is_class_obj(s, x),
        forall|x: usize| #[trigger] is_exc_class(set_rc(s, id, rc), x) == is_exc_class(s, x),
        forall|x: usize, y: usize| #[trigger] is_instance_of(set_rc(s, id, rc), x, y)
            == is_instance_of(s, x, y),
{
    let s2 = set_rc(s, id, rc);
    assert(s2.heap.len() == s.heap.len());
    assert forall|x: usize| is_class_obj(s2, x) == is_class_obj(s, x) && is_exc_class(s2, x)
        == is_exc_class(s, x) && valid(s2, x) == valid(s, x) by {
        if valid(s, x) {
            if x == id {
                assert(obj(s2, x) == with_rc(obj(s, x), rc));
            } else {
                assert(obj(s2, x) == obj(s, x));
            }
        }
    }
    assert forall|x: usize| valid(s, x) implies #[trigger] obj(s2, x) == (if x == id {
        with_rc(obj(s, x), rc)
    } else {
        obj(s, x)
    }) by {}
    assert forall|x: usize, y: usize| #[trigger] is_instance_of(s2, x, y) == is_instance_of(
        s,
        x,
        y,
    ) by {
        if valid(s, x) {
            let c = obj(s, x).class;
            assert(obj(s2, x).class == c && obj(s2, x).is_class == obj(s, x).is_class);
            if is_class_obj(s, c) {
                assert(obj(s2, c).ancestry == obj(s, c).ancestry);
            }
        }
    }
    assert forall|i: int| 0 <= i < s2.heap.len() implies wf_at(s2, i) by {
        assert(wf_at(s, i));
        let o = s.heap[i];
        let o2 = s2.heap[i];
        assert(o2.is_class == o.is_class && o2.is_exc_class == o.is_exc_class && o2.class
            == o.class && o2.ancestry == o.ancestry && o2.arg == o.arg);
        if o2.is_class {
            assert forall|j: int| 0 <= j < o2.ancestry.len() implies is_class_obj(
                s2,
                #[trigger] o2.ancestry[j],
            ) by {
                assert(is_class_obj(s, o.ancestry[j]));
            }
        }
        if o2.is_class && !o2.is_exc_class {
            assert forall|j: int| 0 <= j < o2.ancestry.len() implies !is_exc_class(
                s2,
                #[trigger] o2.ancestry[j],
            ) by {
                assert(!is_exc_class(s, o.ancestry[j]));
            }
        }
    }
}

/// Appending a consistent object keeps the state well-formed. The new object
/// gets id `heap.len() + 1`; a new class may name itself as the head of its
/// ancestry.
pub proof fn lemma_wf_push(s: StateV, o: ObjV)
    requires
        wf(s),
        s.heap.len() < usize::MAX,
        pushable(s, o),
    ensures
        wf(pushed(s, o)),
        forall|x: usize| valid(s, x) ==> #[trigger] valid(pushed(s, o), x) && obj(pushed(s, o), x)
            == obj(s, x),
        valid(pushed(s, o), (s.heap.len() + 1) as usize),
        obj(pushed(s, o), (s.heap.len() + 1) as usize) == o,
{
    let s2 = StateV { heap: s.heap.push(o), ..s };
    let n = s.heap.len() as int;
    assert forall|x: usize| valid(s, x) implies valid(s2, x) && obj(s2, x) == obj(s, x) by {
        assert(s2.heap[x - 1] == s.heap[x - 1]);
    }
    assert(valid(s2, (n + 1) as usize));
    assert(obj(s2, (n + 1) as usize) == o);
    assert forall|i: int| 0 <= i < s2.heap.len() implies wf_at(s2, i) by {
        if i < n {
            assert(wf_at(s, i));
            let oo = s.heap[i];
            assert(s2.heap[i] == oo);
            if oo.is_class {
                assert forall|j: int| 0 <= j < oo.ancestry.len() implies is_class_obj(
                    s2,
                    #[trigger] oo.ancestry[j],
                ) by {
                    assert(is_class_obj(s, oo.ancestry[j]));
                }
            }
            if oo.is_class && !oo.is_exc_class {
                assert forall|j: int| 0 <= j < oo.ancestry.len() implies !is_exc_class(
                    s2,
                    #[trigger] oo.ancestry[j],
                ) by {
                    assert(!is_exc_class(s, oo.ancestry[j]));
                    assert(oo.ancestry[j] != (n + 1) as usize || !valid(s, oo.ancestry[j]));
                }
            }
        } else {
            assert(s2.heap[i] == o);
            if o.is_class {
                assert forall|j: int| 0 <= j < o.ancestry.len() implies is_class_obj(
                    s2,
                    #[trigger] o.ancestry[j],
                ) by {
                    if j == 0 {
                        assert(o.ancestry[0] == (n + 1) as usize);
                    } else {
                        assert(is_class_obj(s, o.ancestry[j]));
                    }
                }
            }
            if o.is_class && !o.is_exc_class {
                assert forall|j: int| 0 <= j < o.ancestry.len() implies !is_exc_class(
                    s2,
                    #[trigger] o.ancestry[j],
                ) by {
                    if j == 0 {
                        assert(obj(s2, o.ancestry[0]) == o);
                    } else {
                        assert(!is_exc_class(s, o.ancestry[j]));
                    }
                }
            }
        }
    }
}

} // verus!
