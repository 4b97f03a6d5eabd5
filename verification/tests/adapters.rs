use pyerr_bridge::err::{
    cast_from_owned_ptr_or_panic, error_on_minusone, from_owned_ptr_or_panic,
    result_cast_from_owned_ptr, result_from_owned_ptr, PyErr, PythonObjectDowncastError,
};
use pyerr_bridge::runtime::{Python, StdExc};

#[test]
fn error_on_minusone_fetches_on_sentinel() {
    let mut py = Python::new();
    let te = py.get_type(StdExc::TypeError);
    let te_id = te.as_ptr();
    PyErr::new_lazy_init(te, None).restore(&mut py);
    let r = error_on_minusone(&mut py, -1);
    match r {
        Err(e) => assert_eq!(e.ptype.as_ptr(), te_id),
        Ok(_) => panic!("sentinel must fail"),
    }
    assert!(!PyErr::occurred(&py));
}

#[test]
fn error_on_minusone_without_pending_error() {
    let mut py = Python::new();
    let se = py.get_type(StdExc::SystemError).steal_ptr();
    let r = error_on_minusone(&mut py, -1);
    match r {
        Err(e) => assert_eq!(e.ptype.as_ptr(), se),
        Ok(_) => panic!("sentinel must fail"),
    }
}

#[test]
fn error_on_minusone_ignores_pending_error_on_success() {
    // every value but the sentinel is success, even with an error pending:
    // the documented sharp edge of the convention
    let mut py = Python::new();
    let te = py.get_type(StdExc::TypeError);
    PyErr::new_lazy_init(te, None).restore(&mut py);
    assert!(error_on_minusone(&mut py, 0).is_ok());
    assert!(error_on_minusone(&mut py, 7).is_ok());
    assert!(error_on_minusone(&mut py, -2).is_ok());
    assert!(PyErr::occurred(&py));
}

#[test]
fn result_from_owned_ptr_null_fetches() {
    let mut py = Python::new();
    let se = py.get_type(StdExc::SystemError).steal_ptr();
    let r = result_from_owned_ptr(&mut py, 0);
    match r {
        Err(e) => assert_eq!(e.ptype.as_ptr(), se),
        Ok(_) => panic!("null must fail"),
    }
}

#[test]
fn result_from_owned_ptr_owns_one_reference() {
    let mut py = Python::new();
    let h = py.new_object();
    let p = h.steal_ptr();
    assert_eq!(py.get_refcnt(p), 1);
    let r = result_from_owned_ptr(&mut py, p);
    let h2 = r.unwrap_or_else(|_| panic!("non-null must succeed"));
    assert_eq!(h2.as_ptr(), p);
    assert_eq!(py.get_refcnt(p), 1);
    // releasing the handle gives the reference up exactly once
    h2.release(&mut py);
    assert_eq!(py.get_refcnt(p), 0);
}

#[test]
fn from_owned_ptr_or_panic_wraps() {
    let mut py = Python::new();
    let h = py.new_object();
    let p = h.steal_ptr();
    let h2 = from_owned_ptr_or_panic(&py, p);
    assert_eq!(h2.as_ptr(), p);
    h2.release(&mut py);
}

#[test]
fn result_cast_succeeds_on_matching_instance() {
    let mut py = Python::new();
    let te = py.get_type(StdExc::TypeError);
    let msg = py.new_string("boom");
    let mut e = PyErr::new(&mut py, StdExc::TypeError, msg);
    let inst = e.instance(&mut py);
    let p = inst.steal_ptr();
    let r = result_cast_from_owned_ptr(&mut py, p, &te);
    match r {
        Ok(h) => {
            assert_eq!(h.as_ptr(), p);
            h.release(&mut py);
        }
        Err(_) => panic!("instance must downcast to its own class"),
    }
}

#[test]
fn result_cast_failure_is_type_error_and_releases() {
    let mut py = Python::new();
    let te = py.get_type(StdExc::TypeError);
    let te_id = te.as_ptr();
    let obj = py.new_object();
    let p = obj.steal_ptr();
    assert_eq!(py.get_refcnt(p), 1);
    let r = result_cast_from_owned_ptr(&mut py, p, &te);
    match r {
        Err(e) => {
            assert_eq!(e.ptype.as_ptr(), te_id);
            assert!(e.pvalue.is_none());
            assert!(e.ptraceback.is_none());
        }
        Ok(_) => panic!("plain object must not downcast"),
    }
    // the failed cast released the object's reference
    assert_eq!(py.get_refcnt(p), 0);
}

#[test]
fn result_cast_null_fetches() {
    let mut py = Python::new();
    let se = py.get_type(StdExc::SystemError).steal_ptr();
    let te = py.get_type(StdExc::TypeError);
    let r = result_cast_from_owned_ptr(&mut py, 0, &te);
    match r {
        Err(e) => assert_eq!(e.ptype.as_ptr(), se),
        Ok(_) => panic!("null must fail"),
    }
}

#[test]
fn cast_or_panic_succeeds_on_matching_instance() {
    let mut py = Python::new();
    let te = py.get_type(StdExc::TypeError);
    let msg = py.new_string("boom");
    let mut e = PyErr::new(&mut py, StdExc::TypeError, msg);
    let inst = e.instance(&mut py);
    let p = inst.steal_ptr();
    let h = cast_from_owned_ptr_or_panic(&py, p, &te);
    assert_eq!(h.as_ptr(), p);
    h.release(&mut py);
}

#[test]
fn downcast_error_converts_to_type_error() {
    let mut py = Python::new();
    let te_id = py.get_type(StdExc::TypeError).steal_ptr();
    let e = PyErr::from(&mut py, PythonObjectDowncastError);
    assert_eq!(e.ptype.as_ptr(), te_id);
    assert!(e.pvalue.is_none());
    assert!(e.ptraceback.is_none());
}

#[test]
fn warn_records_by_default() {
    let mut py = Python::new();
    let base = py.get_type(StdExc::BaseException);
    let category = py.new_exc_class(&base);
    let r = PyErr::warn(&mut py, &category, "deprecated", 1);
    assert!(r.is_ok());
    assert_eq!(py.warn_count(), 1);
    let (cat, message) = py.warn_entry(0);
    assert_eq!(cat, category.as_ptr());
    assert_eq!(message, String::from("deprecated"));
    assert!(!PyErr::occurred(&py));
}

#[test]
fn warn_escalates_to_error_when_configured() {
    let mut py = Python::new();
    let base = py.get_type(StdExc::BaseException);
    let category = py.new_exc_class(&base);
    py.set_warn_as_error(true);
    let r = PyErr::warn(&mut py, &category, "deprecated", 1);
    match r {
        Err(e) => {
            assert_eq!(e.ptype.as_ptr(), category.as_ptr());
            let payload = e.pvalue.as_ref().map(|h| h.as_ptr()).unwrap();
            assert_eq!(py.text_of(payload), Some(String::from("deprecated")));
            assert!(e.ptraceback.is_none());
        }
        Ok(_) => panic!("escalated warning must fail"),
    }
    assert_eq!(py.warn_count(), 0);
}

#[test]
fn print_writes_to_the_error_stream_and_clears() {
    let mut py = Python::new();
    let te = py.get_type(StdExc::TypeError);
    let te_id = te.as_ptr();
    let e = PyErr::new_lazy_init(te, None);
    e.print(&mut py);
    assert!(!PyErr::occurred(&py));
    assert_eq!(py.printed_types().last(), Some(&te_id));
}

#[test]
fn print_and_set_sys_last_vars_records_the_error() {
    let mut py = Python::new();
    let te = py.get_type(StdExc::TypeError);
    let te_id = te.as_ptr();
    let msg = py.new_string("boom");
    let msg_id = msg.as_ptr();
    let e = PyErr::new(&mut py, StdExc::TypeError, msg);
    e.print_and_set_sys_last_vars(&mut py);
    assert!(!PyErr::occurred(&py));
    assert_eq!(py.printed_types().last(), Some(&te_id));
    let (lt, lv, lb) = py.sys_last_vars();
    assert_eq!(lt, te_id);
    assert_eq!(lv, msg_id);
    assert_eq!(lb, 0);
}
