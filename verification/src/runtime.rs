//! Executable state of the embedded runtime and the owned-handle primitive.
//!
//! [`Python`] is the capability to talk to the runtime: it owns the object
//! heap, the global exception slot and the runtime's observable side
//! channels, and it is threaded explicitly through every operation of the
//! bridge. Its view is the mathematical state [`crate::model::StateV`].
//!
//! [`Handle`] wraps one owned reference to a runtime object. It has no
//! destructor: a reference is given up only by the explicit operations
//! `release` (count goes down by one) and `steal_ptr` (ownership of the
//! reference leaves the handle without touching the count), mirroring the
//! runtime's manual reference-counting discipline.

use vstd::prelude::*;
use vstd::string::StringExecFns;

use crate::model::{
    can_restore, fetch_state, fetched_type, init_state, is_class_obj, is_exc_class,
    is_exc_instance, is_instance_of, is_normalized, live, live3, live6, new_instance_obj,
    norm_state, norm_type, norm_value, obj, occupied, plain_obj, print_state, pushable, pushed,
    rc_minus, rc_plus, ref_count3, restored, slot_cleared, slot_live, string_obj, subclass_obj,
    valid, warn_escalated, warn_logged, wf, wf_at, with_rc, ObjV, StateV, WarnV,
};
use crate::model::lemma_wf_set_rc;
use crate::model::lemma_wf_push;
use crate::model::lemma_init_wf;

verus! {

/// The well-known exception classes of the runtime's registry.
#[derive(Clone, Copy)]
pub enum StdExc {
    /// The root exception class.
    BaseException,
    /// The internal-error class, used as fallback by `PyErr::fetch`.
    SystemError,
    /// The type-mismatch class.
    TypeError,
}

/// The id of the registry class that `kind` names.
pub open spec fn std_exc_id(s: StateV, kind: StdExc) -> usize {
    match kind {
        StdExc::BaseException => s.base_exception,
        StdExc::SystemError => s.system_error,
        StdExc::TypeError => s.type_error,
    }
}

/// One reference-counted object of the runtime's heap.
pub struct Obj {
    /// Current reference count; `0` means the object has been freed.
    pub rc: usize,
    /// True for class (type) objects.
    pub is_class: bool,
    /// True for classes that are valid exception classes.
    pub is_exc_class: bool,
    /// For a non-class object: the id of its class.
    pub class: usize,
    /// For a class: its own id followed by the ids of all its bases.
    pub ancestry: Vec<usize>,
    /// For an exception instance: the id of its constructor argument.
    pub arg: usize,
    /// For a string object: its characters.
    pub text: Option<String>,
}

impl View for Obj {
    type V = ObjV;

    open spec fn view(&self) -> ObjV {
        ObjV {
            rc: self.rc,
            is_class: self.is_class,
            is_exc_class: self.is_exc_class,
            class: self.class,
            ancestry: self.ancestry@,
            arg: self.arg,
            text: match self.text {
                Some(t) => Some(t@),
                None => None,
            },
        }
    }
}

/// One recorded warning.
pub struct Warning {
    pub category: usize,
    pub message: String,
}

impl View for Warning {
    type V = WarnV;

    open spec fn view(&self) -> WarnV {
        WarnV { category: self.category, message: self.message@ }
    }
}

/// The capability to talk to the embedded runtime, holding its entire
/// modelled state. Exactly one value of this type exists per runtime; every
/// bridge operation takes it, which makes the single-lock-holder discipline
/// of the runtime visible at each call site.
pub struct Python {
    heap: Vec<Obj>,
    exc_type: usize,
    exc_value: usize,
    exc_trace: usize,
    base_exception: usize,
    system_error: usize,
    type_error: usize,
    object_type: usize,
    str_type: usize,
    none_type: usize,
    none: usize,
    printed: Vec<usize>,
    last_type: usize,
    last_value: usize,
    last_trace: usize,
    warn_as_error: bool,
    warn_log: Vec<Warning>,
}

impl View for Python {
    type V = StateV;

    closed spec fn view(&self) -> StateV {
        StateV {
            heap: self.heap@.map_values(|o: Obj| o@),
            exc_type: self.exc_type,
            exc_value: self.exc_value,
            exc_trace: self.exc_trace,
            base_exception: self.base_exception,
            system_error: self.system_error,
            type_error: self.type_error,
            object_type: self.object_type,
            str_type: self.str_type,
            none_type: self.none_type,
            none: self.none,
            printed: self.printed@,
            last_type: self.last_type,
            last_value: self.last_value,
            last_trace: self.last_trace,
            warn_as_error: self.warn_as_error,
            warn_log: self.warn_log@.map_values(|w: Warning| w@),
        }
    }
}

impl Python {
    /// Acquire one more reference to `id`.
    pub(crate) fn rc_incr(&mut self, id: usize)
        requires
            wf(old(self)@),
            valid(old(self)@, id),
            obj(old(self)@, id).rc < usize::MAX,
        ensures
            final(self)@ == rc_plus(old(self)@, id),
            wf(final(self)@),
            forall|x: usize| #[trigger] valid(final(self)@, x) == valid(old(self)@, x),
            forall|x: usize|
                valid(old(self)@, x) ==> #[trigger] obj(final(self)@, x) == (if x == id {
                    with_rc(obj(old(self)@, x), (obj(old(self)@, id).rc + 1) as usize)
                } else {
                    obj(old(self)@, x)
                }),
            forall|x: usize| #[trigger] is_class_obj(final(self)@, x) == is_class_obj(old(self)@, x),
            forall|x: usize| #[trigger] is_exc_class(final(self)@, x) == is_exc_class(old(self)@, x),
            forall|x: usize, y: usize| #[trigger] is_instance_of(final(self)@, x, y)
                == is_instance_of(old(self)@, x, y),
    {
        let idx: usize = id - 1;
        let o = &mut self.heap[idx];
        o.rc = o.rc + 1;
        proof {
            lemma_wf_set_rc(old(self)@, id, (obj(old(self)@, id).rc + 1) as usize);
            assert(self@.heap =~= rc_plus(old(self)@, id).heap);
            assert(self@ =~= rc_plus(old(self)@, id));
        }
    }

    /// Release one reference to `id`.
    pub(crate) fn rc_decr(&mut self, id: usize)
        requires
            wf(old(self)@),
            live(old(self)@, id),
        ensures
            final(self)@ == rc_minus(old(self)@, id),
            wf(final(self)@),
            forall|x: usize| #[trigger] valid(final(self)@, x) == valid(old(self)@, x),
            forall|x: usize|
                valid(old(self)@, x) ==> #[trigger] obj(final(self)@, x) == (if x == id {
                    with_rc(obj(old(self)@, x), (obj(old(self)@, id).rc - 1) as usize)
                } else {
                    obj(old(self)@, x)
                }),
            forall|x: usize| #[trigger] is_class_obj(final(self)@, x) == is_class_obj(old(self)@, x),
            forall|x: usize| #[trigger] is_exc_class(final(self)@, x) == is_exc_class(old(self)@, x),
            forall|x: usize, y: usize| #[trigger] is_instance_of(final(self)@, x, y)
                == is_instance_of(old(self)@, x, y),
    {
        let idx: usize = id - 1;
        let o = &mut self.heap[idx];
        o.rc = o.rc - 1;
        proof {
            lemma_wf_set_rc(old(self)@, id, (obj(old(self)@, id).rc - 1) as usize);
            assert(self@.heap =~= rc_minus(old(self)@, id).heap);
            assert(self@ =~= rc_minus(old(self)@, id));
        }
    }

    /// Create a fresh object holding one reference, returning its id.
    pub(crate) fn alloc_obj(&mut self, o: Obj) -> (id: usize)
        requires
            wf(old(self)@),
            old(self)@.heap.len() < usize::MAX,
            pushable(old(self)@, o@),
        ensures
            id == old(self)@.heap.len() + 1,
            final(self)@ == pushed(old(self)@, o@),
            wf(final(self)@),
    {
        let id: usize = self.heap.len() + 1;
        proof {
            lemma_wf_push(old(self)@, o@);
        }
        self.heap.push(o);
        proof {
            assert(self@.heap =~= pushed(old(self)@, o@).heap);
            assert(self@ =~= pushed(old(self)@, o@));
        }
        id
    }

    /// Initialize a fresh runtime: the registry classes, the `none`
    /// singleton, an empty exception slot.
    pub fn new() -> (py: Python)
        ensures
            py@ == init_state(),
            wf(py@),
    {
        let mut heap: Vec<Obj> = Vec::new();
        heap.push(Obj {
            rc: 1, is_class: true, is_exc_class: false, class: 0, ancestry: vec1(1), arg: 0,
            text: None,
        });
        heap.push(Obj {
            rc: 1, is_class: true, is_exc_class: true, class: 0, ancestry: vec1(2), arg: 0,
            text: None,
        });
        heap.push(Obj {
            rc: 1, is_class: true, is_exc_class: true, class: 0, ancestry: vec2(3, 2), arg: 0,
            text: None,
        });
        heap.push(Obj {
            rc: 1, is_class: true, is_exc_class: true, class: 0, ancestry: vec2(4, 2), arg: 0,
            text: None,
        });
        heap.push(Obj {
            rc: 1, is_class: true, is_exc_class: false, class: 0, ancestry: vec1(5), arg: 0,
            text: None,
        });
        heap.push(Obj {
            rc: 1, is_class: true, is_exc_class: false, class: 0, ancestry: vec1(6), arg: 0,
            text: None,
        });
        heap.push(Obj {
            rc: 1, is_class: false, is_exc_class: false, class: 6, ancestry: Vec::new(), arg: 0,
            text: None,
        });
        let py = Python {
            heap,
            exc_type: 0,
            exc_value: 0,
            exc_trace: 0,
            base_exception: 2,
            system_error: 3,
            type_error: 4,
            object_type: 1,
            str_type: 5,
            none_type: 6,
            none: 7,
            printed: Vec::new(),
            last_type: 0,
            last_value: 0,
            last_trace: 0,
            warn_as_error: false,
            warn_log: Vec::new(),
        };
        proof {
            let s = py@;
            let i = init_state();
            assert(s.heap.len() == 7);
            assert(s.heap[0] =~= i.heap[0]);
            assert(s.heap[1] =~= i.heap[1]);
            assert(s.heap[2] =~= i.heap[2]);
            assert(s.heap[3] =~= i.heap[3]);
            assert(s.heap[4] =~= i.heap[4]);
            assert(s.heap[5] =~= i.heap[5]);
            assert(s.heap[6] =~= i.heap[6]);
            assert(s.heap =~= i.heap);
            assert(s =~= i);
            lemma_init_wf();
        }
        py
    }

    /// A fresh handle to the registry class that `kind` names (one new
    /// reference, as handing out a type object always is).
    pub fn get_type(&mut self, kind: StdExc) -> (h: Handle)
        requires
            wf(old(self)@),
            obj(old(self)@, std_exc_id(old(self)@, kind)).rc < usize::MAX,
        ensures
            h@ == std_exc_id(old(self)@, kind),
            final(self)@ == rc_plus(old(self)@, h@),
            wf(final(self)@),
            is_exc_class(final(self)@, h@),
    {
        let id: usize = match kind {
            StdExc::BaseException => self.base_exception,
            StdExc::SystemError => self.system_error,
            StdExc::TypeError => self.type_error,
        };
        self.rc_incr(id);
        proof {
            lemma_wf_set_rc(old(self)@, id, (obj(old(self)@, id).rc + 1) as usize);
        }
        Handle::from_owned(id)
    }

    /// The current reference count of the object `id`.
    pub fn get_refcnt(&self, id: usize) -> (r: usize)
        requires
            valid(self@, id),
        ensures
            r == obj(self@, id).rc,
    {
        let o = &self.heap[id - 1];
        o.rc
    }

    /// Whether `id` names an exception class.
    pub fn is_exception_class(&self, id: usize) -> (r: bool)
        requires
            valid(self@, id),
        ensures
            r == is_exc_class(self@, id),
    {
        let o = &self.heap[id - 1];
        o.is_class && o.is_exc_class
    }

    /// Whether `id` names an exception instance.
    pub fn is_exception_instance(&self, id: usize) -> (r: bool)
        requires
            wf(self@),
            valid(self@, id),
        ensures
            r == is_exc_instance(self@, id),
    {
        let o = &self.heap[id - 1];
        if o.is_class {
            false
        } else {
            proof {
                assert(wf_at(self@, id - 1));
            }
            let cls = o.class;
            let c = &self.heap[cls - 1];
            c.is_class && c.is_exc_class
        }
    }

    /// The class of the non-class object `id`.
    pub fn class_of(&self, id: usize) -> (r: usize)
        requires
            valid(self@, id),
        ensures
            r == obj(self@, id).class,
    {
        let o = &self.heap[id - 1];
        o.class
    }

    /// The constructor argument recorded on the object `id` (`0` if none).
    pub fn arg_of(&self, id: usize) -> (r: usize)
        requires
            valid(self@, id),
        ensures
            r == obj(self@, id).arg,
    {
        let o = &self.heap[id - 1];
        o.arg
    }

    /// The text of the string object `id`, if it is one.
    pub fn text_of(&self, id: usize) -> (r: Option<String>)
        requires
            valid(self@, id),
        ensures
            match r {
                Some(t) => obj(self@, id).text == Some(t@),
                None => obj(self@, id).text is None,
            },
    {
        let o = &self.heap[id - 1];
        match &o.text {
            Some(t) => Some(t.clone()),
            None => None,
        }
    }

    /// Whether `v` is an instance of the class `t` or of a subclass of it.
    pub fn is_instance(&self, v: usize, t: usize) -> (r: bool)
        requires
            wf(self@),
            valid(self@, v),
        ensures
            r == is_instance_of(self@, v, t),
    {
        let o = &self.heap[v - 1];
        if o.is_class {
            return false;
        }
        proof {
            assert(wf_at(self@, v - 1));
        }
        let c = &self.heap[o.class - 1];
        let n: usize = c.ancestry.len();
        let mut k: usize = 0;
        #[verifier::loop_isolation(false)]
        while k < n
            invariant
                k <= n,
                n == c.ancestry@.len(),
                forall|j: int| 0 <= j < k ==> c.ancestry@[j] != t,
            decreases n - k,
        {
            if c.ancestry[k] == t {
                proof {
                    assert(o@ == obj(self@, v));
                    assert(c@ == obj(self@, obj(self@, v).class));
                    assert(c.ancestry@[k as int] == t);
                    assert(obj(self@, obj(self@, v).class).ancestry.contains(t));
                }
                return true;
            }
            k = k + 1;
        }
        proof {
            assert(!c.ancestry@.contains(t));
        }
        false
    }

    /// Whether the class `c` is `t` itself or derives from `t`.
    pub fn is_subclass(&self, c: usize, t: usize) -> (r: bool)
        requires
            wf(self@),
            is_class_obj(self@, c),
        ensures
            r == obj(self@, c).ancestry.contains(t),
    {
        let o = &self.heap[c - 1];
        let n: usize = o.ancestry.len();
        let mut k: usize = 0;
        #[verifier::loop_isolation(false)]
        while k < n
            invariant
                k <= n,
                n == o.ancestry@.len(),
                forall|j: int| 0 <= j < k ==> o.ancestry@[j] != t,
            decreases n - k,
        {
            if o.ancestry[k] == t {
                proof {
                    assert(o@ == obj(self@, c));
                    assert(o.ancestry@[k as int] == t);
                    assert(obj(self@, c).ancestry.contains(t));
                }
                return true;
            }
            k = k + 1;
        }
        proof {
            assert(o@ == obj(self@, c));
            assert(!o.ancestry@.contains(t));
        }
        false
    }

    /// The log of error types printed to the runtime's error stream.
    pub fn printed_types(&self) -> (r: &Vec<usize>)
        ensures
            r@ == self@.printed,
    {
        &self.printed
    }

    /// The "last error" introspection fields (type, value, traceback).
    pub fn sys_last_vars(&self) -> (r: (usize, usize, usize))
        ensures
            r.0 == self@.last_type,
            r.1 == self@.last_value,
            r.2 == self@.last_trace,
    {
        (self.last_type, self.last_value, self.last_trace)
    }

    /// How many warnings were recorded.
    pub fn warn_count(&self) -> (r: usize)
        ensures
            r == self@.warn_log.len(),
    {
        self.warn_log.len()
    }

    /// The `i`-th recorded warning: its category and its message.
    pub fn warn_entry(&self, i: usize) -> (r: (usize, String))
        requires
            i < self@.warn_log.len(),
        ensures
            r.0 == self@.warn_log[i as int].category,
            r.1@ == self@.warn_log[i as int].message,
    {
        let w = &self.warn_log[i];
        (w.category, w.message.clone())
    }

    /// Configure whether the warning machinery escalates warnings to errors.
    pub fn set_warn_as_error(&mut self, flag: bool)
        requires
            wf(old(self)@),
        ensures
            final(self)@ == (StateV { warn_as_error: flag, ..old(self)@ }),
            wf(final(self)@),
    {
        self.warn_as_error = flag;
        proof {
            assert(self@ =~= (StateV { warn_as_error: flag, ..old(self)@ }));
            crate::model::lemma_wf_frame(old(self)@, self@);
        }
    }

    /// Whether an error is pending in the global slot. Read-only: the slot
    /// is not consumed.
    pub(crate) fn err_occurred(&self) -> (r: bool)
        ensures
            r == occupied(self@),
    {
        self.exc_type != 0
    }

    /// Create a fresh string object with the text of `s`.
    pub fn new_string(&mut self, s: &str) -> (h: Handle)
        requires
            wf(old(self)@),
            old(self)@.heap.len() < usize::MAX,
        ensures
            h@ == old(self)@.heap.len() + 1,
            final(self)@ == pushed(old(self)@, string_obj(old(self)@, s@)),
            wf(final(self)@),
            live(final(self)@, h@),
    {
        let text: String = String::from_str(s);
        let o = Obj {
            rc: 1,
            is_class: false,
            is_exc_class: false,
            class: self.str_type,
            ancestry: Vec::new(),
            arg: 0,
            text: Some(text),
        };
        proof {
            assert(o@ =~= string_obj(self@, s@));
        }
        let id = self.alloc_obj(o);
        Handle::from_owned(id)
    }

    /// Create a fresh plain object (an instance of the plain-object class,
    /// neither a class nor an exception).
    pub fn new_object(&mut self) -> (h: Handle)
        requires
            wf(old(self)@),
            old(self)@.heap.len() < usize::MAX,
        ensures
            h@ == old(self)@.heap.len() + 1,
            final(self)@ == pushed(old(self)@, plain_obj(old(self)@)),
            wf(final(self)@),
            live(final(self)@, h@),
            !is_exc_instance(final(self)@, h@),
            !is_exc_class(final(self)@, h@),
    {
        let o = Obj {
            rc: 1,
            is_class: false,
            is_exc_class: false,
            class: self.object_type,
            ancestry: Vec::new(),
            arg: 0,
            text: None,
        };
        proof {
            assert(o@ =~= plain_obj(self@));
        }
        let id = self.alloc_obj(o);
        proof {
            assert(obj(self@, self.object_type) == obj(old(self)@, self.object_type));
        }
        Handle::from_owned(id)
    }

    /// Derive a fresh exception class from the exception class `base`.
    pub fn new_exc_class(&mut self, base: &Handle) -> (h: Handle)
        requires
            wf(old(self)@),
            is_exc_class(old(self)@, base@),
            old(self)@.heap.len() < usize::MAX,
        ensures
            h@ == old(self)@.heap.len() + 1,
            final(self)@ == pushed(old(self)@, subclass_obj(old(self)@, base@)),
            wf(final(self)@),
            is_exc_class(final(self)@, h@),
            obj(final(self)@, h@).ancestry == seq![h@] + obj(old(self)@, base@).ancestry,
    {
        let bidx: usize = base.as_ptr() - 1;
        let id: usize = self.heap.len() + 1;
        proof {
            assert(self@.heap.len() == self.heap@.len());
            assert(wf_at(self@, bidx as int));
        }
        let mut anc: Vec<usize> = Vec::new();
        anc.push(id);
        let b = &self.heap[bidx];
        proof {
            assert(b@ == obj(self@, base@));
        }
        let n: usize = b.ancestry.len();
        let mut k: usize = 0;
        #[verifier::loop_isolation(false)]
        while k < n
            invariant
                k <= n,
                anc@ == seq![id] + b.ancestry@.subrange(0, k as int),
            decreases n - k,
        {
            let x = b.ancestry[k];
            anc.push(x);
            proof {
                assert(anc@ =~= seq![id] + b.ancestry@.subrange(0, k + 1));
            }
            k = k + 1;
        }
        proof {
            assert(b.ancestry@.subrange(0, n as int) =~= b.ancestry@);
        }
        let o = Obj {
            rc: 1,
            is_class: true,
            is_exc_class: true,
            class: 0,
            ancestry: anc,
            arg: 0,
            text: None,
        };
        proof {
            assert(o@ =~= subclass_obj(self@, base@));
        }
        let id2 = self.alloc_obj(o);
        proof {
            assert(obj(self@, id) == o@);
        }
        Handle::from_owned(id2)
    }

    /// Atomically read and clear the global exception slot, handing its
    /// references out as three raw ids. When the slot was empty, a fresh
    /// reference to the fallback internal-error class is handed out instead,
    /// with no value and no traceback.
    pub(crate) fn err_fetch_raw(&mut self) -> (r: (usize, usize, usize))
        requires
            wf(old(self)@),
            old(self)@.exc_type == 0 ==> obj(old(self)@, old(self)@.system_error).rc < usize::MAX,
        ensures
            final(self)@ == fetch_state(old(self)@),
            r.0 == fetched_type(old(self)@),
            r.1 == (if occupied(old(self)@) { old(self)@.exc_value } else { 0 }),
            r.2 == (if occupied(old(self)@) { old(self)@.exc_trace } else { 0 }),
            wf(final(self)@),
            !occupied(final(self)@),
            is_exc_class(final(self)@, r.0),
            r.1 != 0 ==> valid(final(self)@, r.1),
            r.2 != 0 ==> valid(final(self)@, r.2),
            slot_live(old(self)@) ==> live3(final(self)@, r.0, r.1, r.2),
            !occupied(old(self)@) ==> live3(final(self)@, r.0, r.1, r.2),
    {
        if self.exc_type == 0 {
            let se = self.system_error;
            self.rc_incr(se);
            proof {
                assert(self@ =~= fetch_state(old(self)@));
                assert forall|id: usize|
                    id != 0 && #[trigger] ref_count3(se, 0, 0, id) > 0 implies obj(
                    self@,
                    id,
                ).rc >= ref_count3(se, 0, 0, id) by {
                    assert(id == se);
                    assert(obj(self@, se).rc >= 1);
                }
            }
            (se, 0, 0)
        } else {
            let t = self.exc_type;
            let v = self.exc_value;
            let tb = self.exc_trace;
            self.exc_type = 0;
            self.exc_value = 0;
            self.exc_trace = 0;
            proof {
                assert(self@ =~= slot_cleared(old(self)@));
                crate::model::lemma_wf_frame(old(self)@, self@);
                if slot_live(old(self)@) {
                    assert forall|id: usize|
                        id != 0 && #[trigger] ref_count3(t, v, tb, id) > 0 implies obj(
                        self@,
                        id,
                    ).rc >= ref_count3(t, v, tb, id) by {
                        assert(ref_count3(
                            old(self)@.exc_type,
                            old(self)@.exc_value,
                            old(self)@.exc_trace,
                            id,
                        ) == ref_count3(t, v, tb, id));
                        assert(obj(self@, id) == obj(old(self)@, id));
                    }
                }
            }
            (t, v, tb)
        }
    }

    /// Write the triple `(t, v, tb)` into the global exception slot; the
    /// slot takes over their references, and any references it held before
    /// are released.
    #[verifier::rlimit(80)]
    pub(crate) fn err_restore_raw(&mut self, t: usize, v: usize, tb: usize)
        requires
            wf(old(self)@),
            is_exc_class(old(self)@, t),
            v == 0 || valid(old(self)@, v),
            tb == 0 || valid(old(self)@, tb),
            can_restore(old(self)@, t, v, tb),
        ensures
            final(self)@ == restored(old(self)@, t, v, tb),
            wf(final(self)@),
            occupied(final(self)@),
            slot_live(final(self)@),
    {
        let s0 = Ghost(self@);
        let ot = self.exc_type;
        let ov = self.exc_value;
        let otb = self.exc_trace;
        if ot != 0 {
            proof {
                assert(ref_count3(ot, ov, otb, ot) >= 1);
            }
            self.rc_decr(ot);
        }
        if ov != 0 {
            proof {
                assert(ref_count3(ot, ov, otb, ov) >= 1);
            }
            self.rc_decr(ov);
        }
        if otb != 0 {
            proof {
                assert(ref_count3(ot, ov, otb, otb) >= 1);
            }
            self.rc_decr(otb);
        }
        proof {
            assert forall|id: usize| valid(s0@, id) implies obj(self@, id).rc >= obj(
                s0@,
                id,
            ).rc - ref_count3(ot, ov, otb, id) by {}
        }
        let s3 = Ghost(self@);
        self.exc_type = t;
        self.exc_value = v;
        self.exc_trace = tb;
        proof {
            crate::model::lemma_wf_frame(s3@, self@);
            assert(self@ =~= restored(s0@, t, v, tb));
            assert forall|id: usize|
                id != 0 && #[trigger] ref_count3(t, v, tb, id) > 0 implies obj(self@, id).rc
                >= ref_count3(t, v, tb, id) by {
                assert(obj(s0@, id).rc >= ref_count3(ot, ov, otb, id) + ref_count3(t, v, tb, id));
            }
        }
    }

    /// Normalize the pair `(t, v)` as the runtime's normalization routine
    /// does: afterwards the value is an instance of exactly the reported
    /// type. A fresh instance is created from the constructor argument when
    /// the value is not already an instance; the value's own, more specific
    /// class replaces `t` when the value is an instance of a strict
    /// subclass. The traceback is never touched.
    #[verifier::rlimit(80)]
    pub(crate) fn err_normalize_raw(&mut self, t: usize, v: usize) -> (r: (usize, usize))
        requires
            wf(old(self)@),
            is_exc_class(old(self)@, t),
            obj(old(self)@, t).rc >= 1,
            v == 0 || valid(old(self)@, v),
            old(self)@.heap.len() < usize::MAX,
            is_instance_of(old(self)@, v, t) ==> obj(old(self)@, obj(old(self)@, v).class).rc
                < usize::MAX,
        ensures
            r.0 == norm_type(old(self)@, t, v),
            r.1 == norm_value(old(self)@, t, v),
            final(self)@ == norm_state(old(self)@, t, v),
            wf(final(self)@),
            is_exc_class(final(self)@, r.0),
            is_normalized(final(self)@, r.0, r.1),
    {
        if v != 0 && self.is_instance(v, t) {
            let c = self.class_of(v);
            if c == t {
                (t, v)
            } else {
                proof {
                    assert(is_class_obj(old(self)@, c));
                }
                self.rc_incr(c);
                self.rc_decr(t);
                proof {
                    assert(self@ == rc_minus(rc_plus(old(self)@, c), t));
                    let anc = obj(old(self)@, c).ancestry;
                    assert(anc.contains(t));
                    if !is_exc_class(old(self)@, c) {
                        assert(wf_at(old(self)@, c - 1));
                        let j = choose|j: int| 0 <= j < anc.len() && anc[j] == t;
                        assert(!is_exc_class(old(self)@, anc[j]));
                        assert(false);
                    }
                    assert(wf_at(old(self)@, c - 1));
                    assert(anc[0] == c);
                    assert(anc.contains(c));
                    assert(is_instance_of(old(self)@, v, c));
                }
                (c, v)
            }
        } else {
            let o = Obj {
                rc: 1,
                is_class: false,
                is_exc_class: false,
                class: t,
                ancestry: Vec::new(),
                arg: v,
                text: None,
            };
            proof {
                assert(o@ =~= new_instance_obj(t, v));
            }
            let id = self.alloc_obj(o);
            proof {
                assert(obj(self@, id) == new_instance_obj(t, v));
                assert(obj(self@, t) == obj(old(self)@, t));
                assert(wf_at(old(self)@, t - 1));
                assert(obj(old(self)@, t).ancestry[0] == t);
                assert(obj(self@, t).ancestry.contains(t));
            }
            (t, id)
        }
    }

    /// Print the pending error to the runtime's error stream and clear the
    /// slot, recording the error's type in the stream log. With `set_vars`
    /// the three references move into the "last error" fields, whose former
    /// occupants are released; without it they are released directly.
    #[verifier::rlimit(80)]
    pub(crate) fn print_ex(&mut self, set_vars: bool)
        requires
            wf(old(self)@),
            occupied(old(self)@),
            !set_vars ==> slot_live(old(self)@),
            set_vars ==> live6(
                old(self)@,
                old(self)@.exc_type,
                old(self)@.exc_value,
                old(self)@.exc_trace,
                old(self)@.last_type,
                old(self)@.last_value,
                old(self)@.last_trace,
            ),
        ensures
            final(self)@ == print_state(old(self)@, set_vars),
            wf(final(self)@),
            !occupied(final(self)@),
    {
        let t = self.exc_type;
        let v = self.exc_value;
        let tb = self.exc_trace;
        self.exc_type = 0;
        self.exc_value = 0;
        self.exc_trace = 0;
        self.printed.push(t);
        proof {
            crate::model::lemma_wf_frame(old(self)@, self@);
        }
        if set_vars {
            let lt = self.last_type;
            let lv = self.last_value;
            let lb = self.last_trace;
            proof {
                assert forall|id: usize|
                    id != 0 && #[trigger] ref_count3(lt, lv, lb, id) > 0 implies obj(
                    self@,
                    id,
                ).rc >= ref_count3(lt, lv, lb, id) by {
                    assert(ref_count3(
                        old(self)@.exc_type,
                        old(self)@.exc_value,
                        old(self)@.exc_trace,
                        id,
                    ) >= 0);
                    assert(obj(self@, id) == obj(old(self)@, id));
                }
            }
            if lt != 0 {
                proof {
                    assert(ref_count3(lt, lv, lb, lt) >= 1);
                }
                self.rc_decr(lt);
            }
            if lv != 0 {
                proof {
                    assert(ref_count3(lt, lv, lb, lv) >= 1);
                }
                self.rc_decr(lv);
            }
            if lb != 0 {
                proof {
                    assert(ref_count3(lt, lv, lb, lb) >= 1);
                }
                self.rc_decr(lb);
            }
            let s2 = Ghost(self@);
            self.last_type = t;
            self.last_value = v;
            self.last_trace = tb;
            proof {
                crate::model::lemma_wf_frame(s2@, self@);
                assert(self@ =~= print_state(old(self)@, true));
            }
        } else {
            proof {
                assert(ref_count3(t, v, tb, t) >= 1);
            }
            self.rc_decr(t);
            if v != 0 {
                proof {
                    assert(ref_count3(t, v, tb, v) >= 1);
                }
                self.rc_decr(v);
            }
            if tb != 0 {
                proof {
                    assert(ref_count3(t, v, tb, tb) >= 1);
                }
                self.rc_decr(tb);
            }
            proof {
                assert(self@ =~= print_state(old(self)@, false));
            }
        }
    }

    /// Issue a warning: escalate it to an error in the slot when the
    /// machinery is configured to, otherwise record it. Returns the
    /// sentinel `-1` exactly when the warning became the pending error.
    #[verifier::rlimit(80)]
    pub(crate) fn warn_ex(&mut self, category: usize, message: &str, _stacklevel: i32) -> (r: i32)
        requires
            wf(old(self)@),
            is_exc_class(old(self)@, category),
            obj(old(self)@, category).rc < usize::MAX,
            old(self)@.heap.len() < usize::MAX,
            slot_live(old(self)@),
        ensures
            old(self)@.warn_as_error ==> r == -1 && final(self)@ == warn_escalated(
                old(self)@,
                category,
                message@,
            ) && occupied(final(self)@) && slot_live(final(self)@),
            !old(self)@.warn_as_error ==> r == 0 && final(self)@ == warn_logged(
                old(self)@,
                category,
                message@,
            ),
            wf(final(self)@),
    {
        if self.warn_as_error {
            let h = self.new_string(message);
            let sid = h.steal_ptr();
            proof {
                assert(obj(self@, category) == obj(old(self)@, category));
                assert(self@.exc_type == old(self)@.exc_type && self@.exc_value == old(
                    self,
                )@.exc_value && self@.exc_trace == old(self)@.exc_trace);
            }
            self.rc_incr(category);
            proof {
                let s0 = old(self)@;
                let s2 = self@;
                assert forall|id: usize|
                    id != 0 implies obj(s2, id).rc >= #[trigger] ref_count3(
                    s2.exc_type,
                    s2.exc_value,
                    s2.exc_trace,
                    id,
                ) + ref_count3(category, sid, 0, id) by {
                    assert(s0.exc_type != 0 ==> valid(s0, s0.exc_type));
                    assert(s0.exc_value != 0 ==> valid(s0, s0.exc_value));
                    assert(s0.exc_trace != 0 ==> valid(s0, s0.exc_trace));
                    assert(ref_count3(s0.exc_type, s0.exc_value, s0.exc_trace, id) == ref_count3(
                        s2.exc_type,
                        s2.exc_value,
                        s2.exc_trace,
                        id,
                    ));
                    if id == sid {
                        assert(ref_count3(s2.exc_type, s2.exc_value, s2.exc_trace, sid) == 0);
                        assert(obj(s2, sid).rc == 1);
                    } else if id == category {
                        assert(obj(s2, id).rc >= ref_count3(
                            s0.exc_type,
                            s0.exc_value,
                            s0.exc_trace,
                            id,
                        ) + 1);
                    } else {
                        if ref_count3(s0.exc_type, s0.exc_value, s0.exc_trace, id) > 0 {
                            assert(obj(s2, id).rc >= ref_count3(
                                s0.exc_type,
                                s0.exc_value,
                                s0.exc_trace,
                                id,
                            ));
                        }
                    }
                }
            }
            self.err_restore_raw(category, sid, 0);
            proof {
                assert(self@ =~= warn_escalated(old(self)@, category, message@));
            }
            -1
        } else {
            let w = Warning { category, message: String::from_str(message) };
            self.warn_log.push(w);
            proof {
                assert(self@.warn_log =~= warn_logged(old(self)@, category, message@).warn_log);
                assert(self@ =~= warn_logged(old(self)@, category, message@));
                crate::model::lemma_wf_frame(old(self)@, self@);
            }
            0
        }
    }
}

/// A one-element vector, for building class ancestries.
fn vec1(a: usize) -> (v: Vec<usize>)
    ensures
        v@ == seq![a],
{
    let mut v: Vec<usize> = Vec::new();
    v.push(a);
    proof {
        assert(v@ =~= seq![a]);
    }
    v
}

/// A two-element vector, for building class ancestries.
fn vec2(a: usize, b: usize) -> (v: Vec<usize>)
    ensures
        v@ == seq![a, b],
{
    let mut v: Vec<usize> = Vec::new();
    v.push(a);
    v.push(b);
    proof {
        assert(v@ =~= seq![a, b]);
    }
    v
}

/// One owned reference to a runtime object.
///
/// The handle does not release its reference by itself: forgetting a handle
/// leaks the reference, exactly as forgetting to decrement does in the
/// runtime's own discipline. Call [`Handle::release`] to give the reference
/// up, or [`Handle::steal_ptr`] to move it out as a raw id.
pub struct Handle {
    id: usize,
}

impl View for Handle {
    type V = usize;

    /// The raw id of the object the handle refers to.
    closed spec fn view(&self) -> usize {
        self.id
    }
}

impl Handle {
    /// Take ownership of the reference already held through the raw id `id`
    /// (the "acquire owned" primitive: no count change).
    pub(crate) fn from_owned(id: usize) -> (h: Handle)
        ensures
            h@ == id,
    {
        Handle { id }
    }

    /// Acquire a new reference to the object behind the borrowed raw id `id`
    /// (the "acquire borrowed" primitive: the count goes up by one).
    pub(crate) fn from_borrowed(py: &mut Python, id: usize) -> (h: Handle)
        requires
            wf(old(py)@),
            valid(old(py)@, id),
            obj(old(py)@, id).rc < usize::MAX,
        ensures
            h@ == id,
            final(py)@ == rc_plus(old(py)@, id),
            wf(final(py)@),
    {
        py.rc_incr(id);
        Handle { id }
    }

    /// The raw id, without giving the reference up.
    pub fn as_ptr(&self) -> (r: usize)
        ensures
            r == self@,
    {
        self.id
    }

    /// Hand the owned reference out as a raw id: the handle is consumed and
    /// the count is not touched (the "release without drop" primitive).
    pub fn steal_ptr(self) -> (r: usize)
        ensures
            r == self@,
    {
        self.id
    }

    /// A second handle to the same object, with its own reference.
    pub fn clone_ref(&self, py: &mut Python) -> (h: Handle)
        requires
            wf(old(py)@),
            valid(old(py)@, self@),
            obj(old(py)@, self@).rc < usize::MAX,
        ensures
            h@ == self@,
            final(py)@ == rc_plus(old(py)@, self@),
            wf(final(py)@),
    {
        py.rc_incr(self.id);
        Handle { id: self.id }
    }

    /// Give the reference up: the object's count goes down by exactly one.
    pub fn release(self, py: &mut Python)
        requires
            wf(old(py)@),
            live(old(py)@, self@),
        ensures
            final(py)@ == rc_minus(old(py)@, self@),
            wf(final(py)@),
    {
        py.rc_decr(self.id);
    }
}

} // verus!
