//! The error triple and the result adapters.
//!
//! [`PyErr`] owns the three handles of one runtime error: its type
//! (`kind`), its optional value (`payload`), and its optional traceback
//! (`trace`). It is created by fetching the global slot, by classifying an
//! existing object, or by pairing a type with a constructor argument; it is
//! consumed by [`PyErr::restore`], which moves the references back into the
//! slot without touching any count.
//!
//! The result adapters turn the runtime's two failure conventions — a null
//! pointer, or the sentinel integer `-1` — into `Result` values, fetching
//! the pending error on failure.

use vstd::prelude::*;

use crate::model::{
    can_restore, classify, fetch_state, fetched_type, is_class_obj, is_exc_class, is_exc_instance,
    is_instance_of, is_normalized, live, live3, norm_state, norm_type, norm_value, obj,
    occupied, pushed, rc_minus, rc_plus, ref_count3, restored, slot_cleared, slot_live, string_obj,
    valid, warn_escalated, warn_logged, wf, Classified, StateV,
};
use crate::model::print_state;
use crate::runtime::{std_exc_id, Handle, Python, StdExc};

verus! {

/// The diagnostic text of the fallback error that classifying a
/// non-exception object produces.
pub open spec fn derive_msg() -> Seq<char> {
    "exceptions must derive from BaseException"@
}

/// A runtime error owned by the host: its type, its optional value, and
/// its optional traceback.
///
/// Before normalization the payload may be an instance, a constructor
/// argument, or absent; call [`PyErr::instance`] to obtain the exception
/// instance in all cases. The triple owns its three references exclusively
/// until it is released field by field or consumed by [`PyErr::restore`].
pub struct PyErr {
    /// The type of the exception: always an exception class.
    pub ptype: Handle,
    /// The value of the exception: an instance of `ptype`, or a constructor
    /// argument for it, or absent.
    pub pvalue: Option<Handle>,
    /// The traceback associated with the error, if any.
    pub ptraceback: Option<Handle>,
}

/// The result of a runtime call: a value, or the error fetched from the
/// runtime.
pub type PyResult<T> = Result<T, PyErr>;

/// The failure of a checked downcast to a more specific capability. It
/// converts into a `PyErr` whose kind is the type-mismatch class.
pub struct PythonObjectDowncastError;

impl PyErr {
    /// The raw id of the error's type.
    pub open spec fn kind_id(self) -> usize {
        self.ptype@
    }

    /// The raw id of the error's value, `0` when absent.
    pub open spec fn value_id(self) -> usize {
        match self.pvalue {
            Some(h) => h@,
            None => 0,
        }
    }

    /// The raw id of the error's traceback, `0` when absent.
    pub open spec fn trace_id(self) -> usize {
        match self.ptraceback {
            Some(h) => h@,
            None => 0,
        }
    }

    /// Well-formedness against a runtime state: the kind is an exception
    /// class and the present handles name objects.
    pub open spec fn wf(self, s: StateV) -> bool {
        &&& is_exc_class(s, self.kind_id())
        &&& (match self.pvalue {
            Some(h) => valid(s, h@),
            None => true,
        })
        &&& (match self.ptraceback {
            Some(h) => valid(s, h@),
            None => true,
        })
    }

    /// The three references of the triple are live.
    pub open spec fn live_refs(self, s: StateV) -> bool {
        live3(s, self.kind_id(), self.value_id(), self.trace_id())
    }

    /// Whether an error is pending in the runtime's global slot. Read-only:
    /// the slot is not consumed.
    pub fn occurred(py: &Python) -> (r: bool)
        ensures
            r == occupied(py@),
    {
        py.err_occurred()
    }

    /// Retrieve the pending error from the global slot, clearing the slot.
    /// When no error is pending, a synthetic error of the fallback
    /// internal-error class is returned instead, with no value and no
    /// traceback, so that fetching is always safe.
    pub fn fetch(py: &mut Python) -> (e: PyErr)
        requires
            wf(old(py)@),
            !occupied(old(py)@) ==> obj(old(py)@, old(py)@.system_error).rc < usize::MAX,
        ensures
            final(py)@ == fetch_state(old(py)@),
            wf(final(py)@),
            !occupied(final(py)@),
            e.kind_id() == fetched_type(old(py)@),
            e.value_id() == (if occupied(old(py)@) {
                old(py)@.exc_value
            } else {
                0
            }),
            e.trace_id() == (if occupied(old(py)@) {
                old(py)@.exc_trace
            } else {
                0
            }),
            e.pvalue is Some <==> (occupied(old(py)@) && old(py)@.exc_value != 0),
            e.ptraceback is Some <==> (occupied(old(py)@) && old(py)@.exc_trace != 0),
            e.wf(final(py)@),
            slot_live(old(py)@) ==> e.live_refs(final(py)@),
            !occupied(old(py)@) ==> e.live_refs(final(py)@),
    {
        let r = py.err_fetch_raw();
        PyErr::new_from_ffi_tuple(r.0, r.1, r.2)
    }

    /// Wrap three raw ids handed out by the runtime (type non-null, value
    /// and traceback possibly null) into an owned triple, taking over their
    /// references without any count change.
    fn new_from_ffi_tuple(t: usize, v: usize, tb: usize) -> (e: PyErr)
        ensures
            e.kind_id() == t,
            e.value_id() == v,
            e.trace_id() == tb,
            e.pvalue is Some <==> v != 0,
            e.ptraceback is Some <==> tb != 0,
    {
        PyErr {
            ptype: Handle::from_owned(t),
            pvalue: if v != 0 {
                Some(Handle::from_owned(v))
            } else {
                None
            },
            ptraceback: if tb != 0 {
                Some(Handle::from_owned(tb))
            } else {
                None
            },
        }
    }

    /// Create an error of the registry class `kind`, with `value` as the
    /// constructor argument for the lazily created instance.
    pub fn new(py: &mut Python, kind: StdExc, value: Handle) -> (e: PyErr)
        requires
            wf(old(py)@),
            obj(old(py)@, std_exc_id(old(py)@, kind)).rc < usize::MAX,
            valid(old(py)@, value@),
        ensures
            final(py)@ == rc_plus(old(py)@, std_exc_id(old(py)@, kind)),
            wf(final(py)@),
            e.kind_id() == std_exc_id(old(py)@, kind),
            e.pvalue == Some(value),
            e.ptraceback is None,
            e.wf(final(py)@),
    {
        let ty = py.get_type(kind);
        PyErr::new_helper(py, ty, value)
    }

    /// Build the triple once the type handle is at hand. A type that is
    /// not an exception class is a contract violation of the host binding
    /// itself, answered by aborting the process rather than by a
    /// recoverable error; that input is excluded here by precondition,
    /// which makes the failing branch provably dead.
    fn new_helper(py: &Python, ty: Handle, value: Handle) -> (e: PyErr)
        requires
            wf(py@),
            is_exc_class(py@, ty@),
            valid(py@, value@),
        ensures
            e == (PyErr { ptype: ty, pvalue: Some(value), ptraceback: None }),
            e.wf(py@),
    {
        let ok = py.is_exception_class(ty.as_ptr());
        if ok {
            PyErr { ptype: ty, pvalue: Some(value), ptraceback: None }
        } else {
            proof {
                assert(false);
            }
            PyErr { ptype: ty, pvalue: Some(value), ptraceback: None }
        }
    }

    /// Create an error from an arbitrary object, classifying it: an
    /// exception instance is kept as the value under its own class; an
    /// exception class is kept as the type, its instance made lazily later;
    /// anything else is replaced by a type-mismatch error carrying a fixed
    /// diagnostic text, and the object's reference is released. The
    /// classification is total: every object falls in exactly one case.
    pub fn from_instance(py: &mut Python, object: Handle) -> (e: PyErr)
        requires
            wf(old(py)@),
            live(old(py)@, object@),
            old(py)@.heap.len() < usize::MAX,
            obj(old(py)@, old(py)@.type_error).rc < usize::MAX,
            is_exc_instance(old(py)@, object@) ==> obj(
                old(py)@,
                obj(old(py)@, object@).class,
            ).rc < usize::MAX,
        ensures
            match classify(old(py)@, object@) {
                Classified::ExcInstance => {
                    &&& e.kind_id() == obj(old(py)@, object@).class
                    &&& e.pvalue == Some(object)
                    &&& e.ptraceback is None
                    &&& final(py)@ == rc_plus(old(py)@, obj(old(py)@, object@).class)
                },
                Classified::ExcClass => {
                    &&& e.ptype == object
                    &&& e.pvalue is None
                    &&& e.ptraceback is None
                    &&& final(py)@ == old(py)@
                },
                Classified::NotAnException => {
                    &&& e.kind_id() == old(py)@.type_error
                    &&& e.value_id() == old(py)@.heap.len() + 1
                    &&& obj(final(py)@, e.value_id()).text == Some(derive_msg())
                    &&& e.ptraceback is None
                    &&& final(py)@ == rc_minus(
                        rc_plus(
                            pushed(old(py)@, string_obj(old(py)@, derive_msg())),
                            old(py)@.type_error,
                        ),
                        object@,
                    )
                },
            },
            wf(final(py)@),
            e.wf(final(py)@),
    {
        let id = object.as_ptr();
        if py.is_exception_instance(id) {
            let cls = py.class_of(id);
            let ty = Handle::from_borrowed(py, cls);
            PyErr { ptype: ty, pvalue: Some(object), ptraceback: None }
        } else if py.is_exception_class(id) {
            PyErr { ptype: object, pvalue: None, ptraceback: None }
        } else {
            let msg = py.new_string("exceptions must derive from BaseException");
            let ty = py.get_type(StdExc::TypeError);
            object.release(py);
            PyErr { ptype: ty, pvalue: Some(msg), ptraceback: None }
        }
    }

    /// Direct construction from an exception class and an optional value,
    /// with the usual lazy initialization: no instance is created until it
    /// is needed. No runtime call is made; the type must already be known
    /// good.
    pub fn new_lazy_init(exc: Handle, value: Option<Handle>) -> (e: PyErr)
        ensures
            e == (PyErr { ptype: exc, pvalue: value, ptraceback: None }),
    {
        PyErr { ptype: exc, pvalue: value, ptraceback: None }
    }

    /// Write the error back into the runtime's global slot, printing it to
    /// the error stream: the slot's former occupants and then the error's
    /// own references are released, and the error's type is recorded in the
    /// stream log.
    pub fn print(self, py: &mut Python)
        requires
            wf(old(py)@),
            self.wf(old(py)@),
            can_restore(old(py)@, self.kind_id(), self.value_id(), self.trace_id()),
        ensures
            final(py)@ == print_state(
                restored(old(py)@, self.kind_id(), self.value_id(), self.trace_id()),
                false,
            ),
            wf(final(py)@),
            !occupied(final(py)@),
    {
        self.restore(py);
        py.print_ex(false);
    }

    /// As [`PyErr::print`], and additionally record the error in the
    /// runtime's "last error" introspection fields, whose former occupants
    /// are released; the error's references move there instead of being
    /// released.
    pub fn print_and_set_sys_last_vars(self, py: &mut Python)
        requires
            wf(old(py)@),
            self.wf(old(py)@),
            forall|id: usize|
                id != 0 ==> obj(old(py)@, id).rc >= #[trigger] ref_count3(
                    old(py)@.exc_type,
                    old(py)@.exc_value,
                    old(py)@.exc_trace,
                    id,
                ) + ref_count3(self.kind_id(), self.value_id(), self.trace_id(), id) + ref_count3(
                    old(py)@.last_type,
                    old(py)@.last_value,
                    old(py)@.last_trace,
                    id,
                ),
        ensures
            final(py)@ == print_state(
                restored(old(py)@, self.kind_id(), self.value_id(), self.trace_id()),
                true,
            ),
            wf(final(py)@),
            !occupied(final(py)@),
    {
        proof {
            assert forall|id: usize|
                id != 0 implies obj(old(py)@, id).rc >= #[trigger] ref_count3(
                old(py)@.exc_type,
                old(py)@.exc_value,
                old(py)@.exc_trace,
                id,
            ) + ref_count3(self.kind_id(), self.value_id(), self.trace_id(), id) by {
                assert(ref_count3(
                    old(py)@.last_type,
                    old(py)@.last_value,
                    old(py)@.last_trace,
                    id,
                ) >= 0);
            }
        }
        let ghost s0 = py@;
        let ghost k = self.kind_id();
        let ghost v = self.value_id();
        let ghost tb = self.trace_id();
        self.restore(py);
        proof {
            crate::model::lemma_restored_rc(s0, k, v, tb);
            let s1 = py@;
            assert forall|id: usize|
                id != 0 implies obj(s1, id).rc >= #[trigger] ref_count3(
                s1.exc_type,
                s1.exc_value,
                s1.exc_trace,
                id,
            ) + ref_count3(s1.last_type, s1.last_value, s1.last_trace, id) by {
                assert(ref_count3(s0.exc_type, s0.exc_value, s0.exc_trace, id) >= 0);
                if ref_count3(s1.exc_type, s1.exc_value, s1.exc_trace, id) + ref_count3(
                    s1.last_type,
                    s1.last_value,
                    s1.last_trace,
                    id,
                ) > 0 {
                    assert(valid(s0, id));
                    assert(obj(s1, id).rc >= obj(s0, id).rc - ref_count3(
                        s0.exc_type,
                        s0.exc_value,
                        s0.exc_trace,
                        id,
                    ));
                }
            }
        }
        py.print_ex(true);
    }

    /// Whether this error matches the exception `exc`: class against class
    /// goes by the subclass relation, anything else by identity.
    pub fn matches(&self, py: &Python, exc: &Handle) -> (r: bool)
        requires
            wf(py@),
            self.wf(py@),
            valid(py@, exc@),
        ensures
            r == crate::model::exc_matches(py@, self.kind_id(), exc@),
    {
        let t = self.ptype.as_ptr();
        let e = exc.as_ptr();
        if py.is_exception_class(t) && py.is_exception_class(e) {
            py.is_subclass(t, e)
        } else {
            t == e
        }
    }

    /// Normalize the error in place: afterwards the value is an instance of
    /// exactly the reported type, created from the constructor argument if
    /// needed. The replacement is a single atomic exchange of the whole
    /// triple, never a partial update, and — being verified — cannot fail
    /// half-way.
    pub fn normalize(&mut self, py: &mut Python)
        requires
            wf(old(py)@),
            old(self).wf(old(py)@),
            obj(old(py)@, old(self).kind_id()).rc >= 1,
            old(py)@.heap.len() < usize::MAX,
            is_instance_of(old(py)@, old(self).value_id(), old(self).kind_id()) ==> obj(
                old(py)@,
                obj(old(py)@, old(self).value_id()).class,
            ).rc < usize::MAX,
        ensures
            final(py)@ == norm_state(old(py)@, old(self).kind_id(), old(self).value_id()),
            wf(final(py)@),
            final(self).kind_id() == norm_type(old(py)@, old(self).kind_id(), old(self).value_id()),
            final(self).value_id() == norm_value(
                old(py)@,
                old(self).kind_id(),
                old(self).value_id(),
            ),
            final(self).pvalue is Some,
            final(self).ptraceback == old(self).ptraceback,
            is_normalized(final(py)@, final(self).kind_id(), final(self).value_id()),
            final(self).wf(final(py)@),
    {
        // atomic replace: move the whole triple out against a placeholder,
        // transform it as one value, and write the result back
        let mut tmp = PyErr { ptype: Handle::from_owned(0), pvalue: None, ptraceback: None };
        core::mem::swap(self, &mut tmp);
        let mut e = tmp.into_normalized(py);
        core::mem::swap(self, &mut e);
    }

    /// Normalize by consuming and rebuilding the triple.
    fn into_normalized(self, py: &mut Python) -> (e: PyErr)
        requires
            wf(old(py)@),
            self.wf(old(py)@),
            obj(old(py)@, self.kind_id()).rc >= 1,
            old(py)@.heap.len() < usize::MAX,
            is_instance_of(old(py)@, self.value_id(), self.kind_id()) ==> obj(
                old(py)@,
                obj(old(py)@, self.value_id()).class,
            ).rc < usize::MAX,
        ensures
            final(py)@ == norm_state(old(py)@, self.kind_id(), self.value_id()),
            wf(final(py)@),
            e.kind_id() == norm_type(old(py)@, self.kind_id(), self.value_id()),
            e.value_id() == norm_value(old(py)@, self.kind_id(), self.value_id()),
            e.ptraceback == self.ptraceback,
            is_normalized(final(py)@, e.kind_id(), e.value_id()),
            e.wf(final(py)@),
    {
        let PyErr { ptype, pvalue, ptraceback } = self;
        let t = ptype.steal_ptr();
        let v = match pvalue {
            Some(h) => h.steal_ptr(),
            None => 0,
        };
        let r = py.err_normalize_raw(t, v);
        proof {
            assert(py@.heap.len() >= old(py)@.heap.len());
        }
        PyErr {
            ptype: Handle::from_owned(r.0),
            pvalue: Some(Handle::from_owned(r.1)),
            ptraceback,
        }
    }

    /// The error's type as a fresh handle. The kind of a well-formed triple
    /// is always a class object, so the downcast to a type object performed
    /// here cannot fail; the fallback branch is provably dead.
    pub fn get_type(&self, py: &mut Python) -> (h: Handle)
        requires
            wf(old(py)@),
            self.wf(old(py)@),
            obj(old(py)@, self.kind_id()).rc < usize::MAX,
        ensures
            h@ == self.kind_id(),
            final(py)@ == rc_plus(old(py)@, self.kind_id()),
            wf(final(py)@),
    {
        let ok = py.is_exception_class(self.ptype.as_ptr());
        if ok {
            self.ptype.clone_ref(py)
        } else {
            proof {
                assert(false);
            }
            self.ptype.clone_ref(py)
        }
    }

    /// The exception instance for this error, normalizing first: a fresh
    /// handle to the (then always present) value.
    pub fn instance(&mut self, py: &mut Python) -> (h: Handle)
        requires
            wf(old(py)@),
            old(self).wf(old(py)@),
            obj(old(py)@, old(self).kind_id()).rc >= 1,
            old(py)@.heap.len() < usize::MAX,
            is_instance_of(old(py)@, old(self).value_id(), old(self).kind_id()) ==> obj(
                old(py)@,
                obj(old(py)@, old(self).value_id()).class,
            ).rc < usize::MAX,
            is_instance_of(old(py)@, old(self).value_id(), old(self).kind_id()) ==> obj(
                old(py)@,
                old(self).value_id(),
            ).rc < usize::MAX,
        ensures
            h@ == norm_value(old(py)@, old(self).kind_id(), old(self).value_id()),
            final(py)@ == rc_plus(
                norm_state(old(py)@, old(self).kind_id(), old(self).value_id()),
                h@,
            ),
            wf(final(py)@),
            final(self).kind_id() == norm_type(old(py)@, old(self).kind_id(), old(self).value_id()),
            final(self).value_id() == h@,
            final(self).ptraceback == old(self).ptraceback,
            is_normalized(final(py)@, final(self).kind_id(), final(self).value_id()),
            final(self).wf(final(py)@),
    {
        self.normalize(py);
        match &self.pvalue {
            Some(h) => h.clone_ref(py),
            None => {
                // normalization always leaves a value behind; this arm is
                // provably unreachable
                proof {
                    assert(false);
                }
                Handle::from_owned(0)
            },
        }
    }

    /// Write the error back into the runtime's global slot, the opposite of
    /// [`PyErr::fetch`]: the three references move into the slot with no
    /// count change, and the slot's former occupants are released. The
    /// triple is consumed by value and cannot be used afterwards.
    pub fn restore(self, py: &mut Python)
        requires
            wf(old(py)@),
            self.wf(old(py)@),
            can_restore(old(py)@, self.kind_id(), self.value_id(), self.trace_id()),
        ensures
            final(py)@ == restored(old(py)@, self.kind_id(), self.value_id(), self.trace_id()),
            wf(final(py)@),
            occupied(final(py)@),
            slot_live(final(py)@),
    {
        let PyErr { ptype, pvalue, ptraceback } = self;
        let t = ptype.steal_ptr();
        let v = match pvalue {
            Some(h) => h.steal_ptr(),
            None => 0,
        };
        let tb = match ptraceback {
            Some(h) => h.steal_ptr(),
            None => 0,
        };
        py.err_restore_raw(t, v, tb);
    }

    /// Issue a warning of the exception class `category` through the
    /// runtime. When the warning machinery escalates warnings to errors the
    /// warning becomes the pending error and is fetched back as `Err`;
    /// otherwise it is recorded and `Ok(())` is returned. The message must
    /// not contain a NUL character: it crosses the boundary as a C string,
    /// which cannot carry one.
    pub fn warn(py: &mut Python, category: &Handle, message: &str, stacklevel: i32) -> (r:
        PyResult<()>)
        requires
            wf(old(py)@),
            is_exc_class(old(py)@, category@),
            obj(old(py)@, category@).rc < usize::MAX,
            old(py)@.heap.len() < usize::MAX,
            slot_live(old(py)@),
            forall|i: int| 0 <= i < message@.len() ==> message@[i] != '\0',
        ensures
            wf(final(py)@),
            !old(py)@.warn_as_error ==> (r is Ok && final(py)@ == warn_logged(
                old(py)@,
                category@,
                message@,
            )),
            old(py)@.warn_as_error ==> (match r {
                Err(e) => {
                    &&& e.kind_id() == category@
                    &&& e.value_id() == old(py)@.heap.len() + 1
                    &&& obj(final(py)@, e.value_id()).text == Some(message@)
                    &&& e.ptraceback is None
                    &&& final(py)@ == slot_cleared(
                        warn_escalated(old(py)@, category@, message@),
                    )
                },
                Ok(_) => false,
            }),
    {
        let code = py.warn_ex(category.as_ptr(), message, stacklevel);
        error_on_minusone(py, code)
    }

    /// Convert a downcast failure into an error of the type-mismatch class,
    /// with lazy instantiation (no value yet).
    pub fn from(py: &mut Python, err: PythonObjectDowncastError) -> (e: PyErr)
        requires
            wf(old(py)@),
            obj(old(py)@, old(py)@.type_error).rc < usize::MAX,
        ensures
            e.kind_id() == old(py)@.type_error,
            e.pvalue is None,
            e.ptraceback is None,
            final(py)@ == rc_plus(old(py)@, old(py)@.type_error),
            wf(final(py)@),
            e.wf(final(py)@),
    {
        let PythonObjectDowncastError = err;
        let ty = py.get_type(StdExc::TypeError);
        PyErr::new_lazy_init(ty, None)
    }
}

/// Turn the raw result of a runtime call that returns a new reference or
/// null into a `Result`: null means failure, and the pending error is
/// fetched; otherwise the reference is owned by the returned handle, which,
/// when released, gives it up again — the count goes down by exactly one.
pub fn result_from_owned_ptr(py: &mut Python, p: usize) -> (r: PyResult<Handle>)
    requires
        wf(old(py)@),
        p == 0 || valid(old(py)@, p),
        (p == 0 && !occupied(old(py)@)) ==> obj(old(py)@, old(py)@.system_error).rc
            < usize::MAX,
    ensures
        wf(final(py)@),
        p != 0 ==> (match r {
            Ok(h) => h@ == p && final(py)@ == old(py)@,
            Err(_) => false,
        }),
        p == 0 ==> (match r {
            Err(e) => {
                &&& final(py)@ == fetch_state(old(py)@)
                &&& e.kind_id() == fetched_type(old(py)@)
                &&& e.value_id() == (if occupied(old(py)@) {
                    old(py)@.exc_value
                } else {
                    0
                })
                &&& e.trace_id() == (if occupied(old(py)@) {
                    old(py)@.exc_trace
                } else {
                    0
                })
                &&& e.wf(final(py)@)
            },
            Ok(_) => false,
        }),
{
    if p == 0 {
        Err(PyErr::fetch(py))
    } else {
        Ok(Handle::from_owned(p))
    }
}

/// As [`result_from_owned_ptr`], for call sites that structurally cannot
/// propagate a `Result`: on a null pointer the pending error is printed
/// and the process aborts, irrecoverably. That input is excluded here by
/// precondition.
pub fn from_owned_ptr_or_panic(_py: &Python, p: usize) -> (h: Handle)
    requires
        p != 0,
        valid(_py@, p),
    ensures
        h@ == p,
{
    Handle::from_owned(p)
}

/// As [`result_from_owned_ptr`], followed by a checked downcast of the
/// handle to an instance of the class `target`. A failed downcast releases
/// the reference and yields a type-mismatch error with lazy instantiation.
pub fn result_cast_from_owned_ptr(py: &mut Python, p: usize, target: &Handle) -> (r: PyResult<
    Handle,
>)
    requires
        wf(old(py)@),
        p == 0 || live(old(py)@, p),
        is_class_obj(old(py)@, target@),
        (p == 0 && !occupied(old(py)@)) ==> obj(old(py)@, old(py)@.system_error).rc
            < usize::MAX,
        obj(old(py)@, old(py)@.type_error).rc < usize::MAX,
    ensures
        wf(final(py)@),
        p == 0 ==> (match r {
            Err(e) => final(py)@ == fetch_state(old(py)@) && e.kind_id() == fetched_type(
                old(py)@,
            ) && e.wf(final(py)@),
            Ok(_) => false,
        }),
        (p != 0 && is_instance_of(old(py)@, p, target@)) ==> (match r {
            Ok(h) => h@ == p && final(py)@ == old(py)@,
            Err(_) => false,
        }),
        (p != 0 && !is_instance_of(old(py)@, p, target@)) ==> (match r {
            Err(e) => {
                &&& e.kind_id() == old(py)@.type_error
                &&& e.pvalue is None
                &&& e.ptraceback is None
                &&& final(py)@ == rc_minus(rc_plus(old(py)@, old(py)@.type_error), p)
            },
            Ok(_) => false,
        }),
{
    if p == 0 {
        Err(PyErr::fetch(py))
    } else if py.is_instance(p, target.as_ptr()) {
        Ok(Handle::from_owned(p))
    } else {
        let h = Handle::from_owned(p);
        let e = PyErr::from(py, PythonObjectDowncastError);
        h.release(py);
        Err(e)
    }
}

/// As [`result_cast_from_owned_ptr`], for call sites that structurally
/// cannot propagate a `Result`: a null pointer or a failed downcast aborts
/// the process, irrecoverably. Both inputs are excluded here by
/// precondition, which makes the runtime check provably unable to fail.
pub fn cast_from_owned_ptr_or_panic(py: &Python, p: usize, target: &Handle) -> (h: Handle)
    requires
        wf(py@),
        p != 0,
        valid(py@, p),
        is_instance_of(py@, p, target@),
    ensures
        h@ == p,
{
    let ok = py.is_instance(p, target.as_ptr());
    if ok {
        Handle::from_owned(p)
    } else {
        proof {
            assert(false);
        }
        Handle::from_owned(p)
    }
}

/// Turn the result of a runtime call that signals failure by the sentinel
/// integer `-1` into a `Result`: `-1` means failure and the pending error
/// is fetched; every other value is success, whether or not an error also
/// happens to be pending — the sentinel convention is preserved exactly as
/// the call sites rely on it.
pub fn error_on_minusone(py: &mut Python, result: i32) -> (r: PyResult<()>)
    requires
        wf(old(py)@),
        (result == -1 && !occupied(old(py)@)) ==> obj(old(py)@, old(py)@.system_error).rc
            < usize::MAX,
    ensures
        wf(final(py)@),
        result != -1 ==> (r is Ok && final(py)@ == old(py)@),
        result == -1 ==> (match r {
            Err(e) => {
                &&& final(py)@ == fetch_state(old(py)@)
                &&& e.kind_id() == fetched_type(old(py)@)
                &&& e.value_id() == (if occupied(old(py)@) {
                    old(py)@.exc_value
                } else {
                    0
                })
                &&& e.trace_id() == (if occupied(old(py)@) {
                    old(py)@.exc_trace
                } else {
                    0
                })
                &&& e.pvalue is Some <==> (occupied(old(py)@) && old(py)@.exc_value != 0)
                &&& e.wf(final(py)@)
            },
            Ok(_) => false,
        }),
{
    if result != -1 {
        Ok(())
    } else {
        Err(PyErr::fetch(py))
    }
}

} // verus!
