use pyerr_bridge::err::PyErr;
use pyerr_bridge::runtime::{Python, StdExc};

#[test]
fn set_typeerror() {
    let mut py = Python::new();
    let te = py.get_type(StdExc::TypeError);
    PyErr::new_lazy_init(te, None).restore(&mut py);
    assert!(PyErr::occurred(&py));
    drop(PyErr::fetch(&mut py));
}

#[test]
fn fetch_empty_slot_gives_fallback() {
    let mut py = Python::new();
    let se = py.get_type(StdExc::SystemError).steal_ptr();
    assert!(!PyErr::occurred(&py));
    let e = PyErr::fetch(&mut py);
    assert_eq!(e.ptype.as_ptr(), se);
    assert!(e.pvalue.is_none());
    assert!(e.ptraceback.is_none());
    // the slot stays empty, and a second fetch reports the same triple
    assert!(!PyErr::occurred(&py));
    let e2 = PyErr::fetch(&mut py);
    assert_eq!(e2.ptype.as_ptr(), se);
    assert!(e2.pvalue.is_none());
    assert!(e2.ptraceback.is_none());
}

#[test]
fn fetch_restore_roundtrip_keeps_occurred() {
    let mut py = Python::new();
    let te = py.get_type(StdExc::TypeError);
    let te_id = te.as_ptr();
    PyErr::new_lazy_init(te, None).restore(&mut py);
    assert!(PyErr::occurred(&py));
    let e = PyErr::fetch(&mut py);
    assert!(!PyErr::occurred(&py));
    e.restore(&mut py);
    assert!(PyErr::occurred(&py));
    let e2 = PyErr::fetch(&mut py);
    assert_eq!(e2.ptype.as_ptr(), te_id);
}

#[test]
fn instance_is_stable_across_calls() {
    let mut py = Python::new();
    let msg = py.new_string("boom");
    let mut e = PyErr::new(&mut py, StdExc::TypeError, msg);
    let i1 = e.instance(&mut py);
    let i2 = e.instance(&mut py);
    assert_eq!(i1.as_ptr(), i2.as_ptr());
    i1.release(&mut py);
    i2.release(&mut py);
}

#[test]
fn from_class_and_argument_scenario() {
    let mut py = Python::new();
    let te_id = py.get_type(StdExc::TypeError).steal_ptr();
    let msg = py.new_string("boom");
    let msg_id = msg.as_ptr();
    let mut e = PyErr::new(&mut py, StdExc::TypeError, msg);
    let inst = e.instance(&mut py);
    // the instance belongs to the requested class...
    assert!(py.is_instance(inst.as_ptr(), te_id));
    assert_eq!(py.class_of(inst.as_ptr()), te_id);
    // ...and carries the string argument as its message
    let arg = py.arg_of(inst.as_ptr());
    assert_eq!(arg, msg_id);
    assert_eq!(py.text_of(arg), Some(String::from("boom")));
}

#[test]
fn from_instance_with_exception_instance() {
    let mut py = Python::new();
    let te_id = py.get_type(StdExc::TypeError).steal_ptr();
    let msg = py.new_string("boom");
    let mut e = PyErr::new(&mut py, StdExc::TypeError, msg);
    let inst = e.instance(&mut py);
    let inst_id = inst.as_ptr();
    let e2 = PyErr::from_instance(&mut py, inst);
    assert_eq!(e2.ptype.as_ptr(), te_id);
    assert_eq!(e2.pvalue.as_ref().map(|h| h.as_ptr()), Some(inst_id));
    assert!(e2.ptraceback.is_none());
}

#[test]
fn from_instance_with_exception_class() {
    let mut py = Python::new();
    let te = py.get_type(StdExc::TypeError);
    let te_id = te.as_ptr();
    let e = PyErr::from_instance(&mut py, te);
    assert_eq!(e.ptype.as_ptr(), te_id);
    assert!(e.pvalue.is_none());
    assert!(e.ptraceback.is_none());
}

#[test]
fn from_instance_with_plain_object() {
    let mut py = Python::new();
    let te_id = py.get_type(StdExc::TypeError).steal_ptr();
    let obj = py.new_object();
    let e = PyErr::from_instance(&mut py, obj);
    assert_eq!(e.ptype.as_ptr(), te_id);
    let payload = e.pvalue.as_ref().map(|h| h.as_ptr()).unwrap();
    assert_eq!(
        py.text_of(payload),
        Some(String::from("exceptions must derive from BaseException"))
    );
    assert!(e.ptraceback.is_none());
}

#[test]
fn from_instance_with_string_object() {
    // a string is neither an exception instance nor a class: fallback case
    let mut py = Python::new();
    let te_id = py.get_type(StdExc::TypeError).steal_ptr();
    let s = py.new_string("not an exception");
    let e = PyErr::from_instance(&mut py, s);
    assert_eq!(e.ptype.as_ptr(), te_id);
    assert!(e.pvalue.is_some());
}

#[test]
fn matches_class_and_subclass() {
    let mut py = Python::new();
    let base = py.get_type(StdExc::BaseException);
    let te = py.get_type(StdExc::TypeError);
    let sub = py.new_exc_class(&base);
    let sub2 = sub.clone_ref(&mut py);
    let e = PyErr::new_lazy_init(sub, None);
    assert!(e.matches(&py, &sub2));
    assert!(e.matches(&py, &base));
    assert!(!e.matches(&py, &te));
}

#[test]
fn matches_non_class_compares_identity() {
    let mut py = Python::new();
    let te = py.get_type(StdExc::TypeError);
    let obj = py.new_object();
    let e = PyErr::new_lazy_init(te, None);
    assert!(!e.matches(&py, &obj));
    obj.release(&mut py);
}

#[test]
fn normalize_replaces_type_with_subclass() {
    let mut py = Python::new();
    let te = py.get_type(StdExc::TypeError);
    let te_id = te.as_ptr();
    let sub = py.new_exc_class(&te);
    let sub_id = sub.as_ptr();
    // an instance of the subclass
    let mut e1 = PyErr::new_lazy_init(sub, None);
    let inst = e1.instance(&mut py);
    assert_eq!(py.class_of(inst.as_ptr()), sub_id);
    // a triple reporting the base class but holding the subclass instance
    let te2 = py.get_type(StdExc::TypeError);
    let mut e2 = PyErr::new_lazy_init(te2, Some(inst));
    assert_eq!(e2.ptype.as_ptr(), te_id);
    e2.normalize(&mut py);
    assert_eq!(e2.ptype.as_ptr(), sub_id);
}

#[test]
fn normalize_is_idempotent_on_state() {
    let mut py = Python::new();
    let msg = py.new_string("boom");
    let mut e = PyErr::new(&mut py, StdExc::TypeError, msg);
    e.normalize(&mut py);
    let kind = e.ptype.as_ptr();
    let value = e.pvalue.as_ref().map(|h| h.as_ptr());
    let rc = py.get_refcnt(value.unwrap());
    e.normalize(&mut py);
    assert_eq!(e.ptype.as_ptr(), kind);
    assert_eq!(e.pvalue.as_ref().map(|h| h.as_ptr()), value);
    assert_eq!(py.get_refcnt(value.unwrap()), rc);
}

#[test]
fn get_type_returns_kind() {
    let mut py = Python::new();
    let te = py.get_type(StdExc::TypeError);
    let te_id = te.as_ptr();
    let e = PyErr::new_lazy_init(te, None);
    let rc_before = py.get_refcnt(te_id);
    let t = e.get_type(&mut py);
    assert_eq!(t.as_ptr(), te_id);
    assert_eq!(py.get_refcnt(te_id), rc_before + 1);
    t.release(&mut py);
}

#[test]
fn clone_ref_and_release_track_the_count() {
    let mut py = Python::new();
    let h = py.new_object();
    let id = h.as_ptr();
    assert_eq!(py.get_refcnt(id), 1);
    let h2 = h.clone_ref(&mut py);
    assert_eq!(py.get_refcnt(id), 2);
    h2.release(&mut py);
    assert_eq!(py.get_refcnt(id), 1);
    h.release(&mut py);
    assert_eq!(py.get_refcnt(id), 0);
}

#[test]
fn restore_releases_previous_slot_contents() {
    let mut py = Python::new();
    let te = py.get_type(StdExc::TypeError);
    let te_id = te.as_ptr();
    PyErr::new_lazy_init(te, None).restore(&mut py);
    let rc_with_slot = py.get_refcnt(te_id);
    // restoring a second error releases the slot's reference to the first
    let se = py.get_type(StdExc::SystemError);
    PyErr::new_lazy_init(se, None).restore(&mut py);
    assert_eq!(py.get_refcnt(te_id), rc_with_slot - 1);
}
