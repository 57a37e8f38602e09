use tpt_zero_formal::postcond::{check, PostconditionError};

#[test]
fn error_holds_message() {
    let e = PostconditionError::new("boom");
    assert_eq!(e.message(), "boom");
}

#[test]
fn check_passes_when_true() {
    assert_eq!(check(true, "ok"), Ok(()));
}

#[test]
fn check_fails_when_false() {
    let r: Result<(), PostconditionError> = check(false, "nope");
    assert_eq!(r, Err(PostconditionError::new("nope")));
}

#[test]
fn ensure_postcond_passes() {
    fn f(x: u32) -> Result<u32, PostconditionError> {
        let y = x + 1;
        if !(y > x) {
            return Err(PostconditionError::new("y exceeds x"));
        }
        Ok(y)
    }
    assert_eq!(f(41), Ok(42));
}

#[test]
fn ensure_postcond_fails() {
    fn f(x: u32) -> Result<(), PostconditionError> {
        let y = x.wrapping_sub(1);
        if !(y < x) {
            return Err(PostconditionError::new("y is below x"));
        }
        Ok(())
    }
    assert_eq!(f(0), Err(PostconditionError::new("y is below x")));
}

#[test]
fn ensure_postcond_generated_message() {
    fn f() -> Result<(), PostconditionError> {
        if !false {
            return Err(PostconditionError::new("postcondition failed: false"));
        }
        Ok(())
    }
    let e = f().unwrap_err();
    assert!(e.message().contains("false"));
}

#[test]
fn postcondition_passes() {
    fn f(x: u32) -> Result<u32, PostconditionError> {
        let y = x + 1;
        check(y > x, "y exceeds x")?;
        Ok(y)
    }
    assert_eq!(f(41), Ok(42));
}

#[test]
fn postcondition_fails_in_debug() {
    // The checked form of a postcondition, as debug builds evaluate it.
    fn f() -> Result<(), PostconditionError> {
        check(false, "always false")?;
        Ok(())
    }
    let r = f();
    assert_eq!(r, Err(PostconditionError::new("always false")));
}

#[test]
fn display_describes_violation() {
    let e = PostconditionError::new("msg");
    assert_eq!(e.message(), "msg");
    assert_eq!(e.to_string(), "postcondition violated: msg");
}
