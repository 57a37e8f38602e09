use tpt_zero_formal::precond::{check, PreconditionError};

#[test]
fn check_passes_on_true() {
    assert_eq!(check(true, "always"), Ok(()));
}

#[test]
fn check_fails_on_false() {
    let err = check(false, "must be even").unwrap_err();
    assert_eq!(err.msg(), "must be even");
}

#[test]
fn display_describes_condition() {
    let err = PreconditionError::new("x > 0");
    assert_eq!(err.to_string(), "precondition violated: x > 0");
}

fn mid(a: i32, b: i32) -> Result<i32, PreconditionError> {
    if !(a <= b) {
        return Err(PreconditionError::new("a must be <= b"));
    }
    Ok((a + b) / 2)
}

#[test]
fn requires_ok_returns_ok_when_satisfied() {
    assert_eq!(mid(2, 8), Ok(5));
}

#[test]
fn requires_ok_returns_err_when_violated() {
    assert!(mid(8, 2).is_err());
}

#[test]
fn requires_ok_default_message() {
    fn f(x: i32) -> Result<i32, PreconditionError> {
        if !(x >= 0) {
            return Err(PreconditionError::new("precondition violated"));
        }
        Ok(x)
    }
    assert!(f(-1).unwrap_err().msg().starts_with("precondition"));
}

#[test]
fn checked_function_propagates_error() {
    fn g(a: i32, b: i32) -> Result<i32, PreconditionError> {
        check(a <= b, "a must be <= b")?;
        Ok(b - a)
    }
    assert_eq!(g(2, 8), Ok(6));
    assert_eq!(g(8, 2).unwrap_err().msg(), "a must be <= b");
}
