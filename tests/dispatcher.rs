use error_trigger::{Abort, Error, ErrorTriggerContract};

#[test]
fn panic_always_yields_the_unconditional_abort() {
    for _ in 0..3 {
        let abort = ErrorTriggerContract::trigger_panic();
        assert_eq!(abort, Abort::Panic);
        assert_eq!(abort.message(), "intentional panic for diagnostic testing");
    }
}

#[test]
fn assert_with_zero_completes_normally() {
    assert_eq!(ErrorTriggerContract::trigger_assert(0), Ok(()));
}

#[test]
fn assert_with_five_aborts_with_its_message() {
    let r = ErrorTriggerContract::trigger_assert(5);
    assert_eq!(r, Err(Abort::AssertionFailed));
    assert_eq!(
        r.unwrap_err().message(),
        "assertion failed: value must be zero"
    );
}

#[test]
fn assert_aborts_for_every_nonzero_edge_value() {
    for value in [1u32, 2, 999, u32::MAX] {
        assert_eq!(
            ErrorTriggerContract::trigger_assert(value),
            Err(Abort::AssertionFailed)
        );
    }
}

#[test]
fn abort_kinds_carry_distinct_messages() {
    assert_ne!(Abort::Panic.message(), Abort::AssertionFailed.message());
}

#[test]
fn custom_error_one_is_invalid_input() {
    assert_eq!(
        ErrorTriggerContract::trigger_custom_error(1),
        Err(Error::InvalidInput)
    );
}

#[test]
fn custom_error_two_is_unauthorized() {
    let r = ErrorTriggerContract::trigger_custom_error(2);
    assert_eq!(r, Err(Error::Unauthorized));
    assert_eq!(r.unwrap_err().code(), 2);
}

#[test]
fn custom_error_three_is_overflow() {
    assert_eq!(
        ErrorTriggerContract::trigger_custom_error(3),
        Err(Error::Overflow)
    );
}

#[test]
fn custom_error_seven_passes_through() {
    assert_eq!(ErrorTriggerContract::trigger_custom_error(7), Ok(7));
}

#[test]
fn custom_error_is_identity_outside_the_trigger_set() {
    for code in [0u32, 4, 999, 4294967295] {
        assert_eq!(ErrorTriggerContract::trigger_custom_error(code), Ok(code));
    }
}

#[test]
fn classified_errors_decode_back_from_their_code() {
    for code in 1u32..=3 {
        let e = ErrorTriggerContract::trigger_custom_error(code).unwrap_err();
        assert_eq!(e.code(), code);
        assert_eq!(Error::from_code(code), Some(e));
    }
}

#[test]
fn error_discriminants_are_stable() {
    assert_eq!(Error::InvalidInput.code(), 1);
    assert_eq!(Error::Unauthorized.code(), 2);
    assert_eq!(Error::Overflow.code(), 3);
}

#[test]
fn from_code_rejects_unknown_numbers() {
    for code in [0u32, 4, 999, u32::MAX] {
        assert_eq!(Error::from_code(code), None);
    }
}

#[test]
fn repeated_calls_give_the_same_outcome() {
    for code in [0u32, 1, 2, 3, 7, u32::MAX] {
        assert_eq!(
            ErrorTriggerContract::trigger_custom_error(code),
            ErrorTriggerContract::trigger_custom_error(code)
        );
        assert_eq!(
            ErrorTriggerContract::trigger_assert(code),
            ErrorTriggerContract::trigger_assert(code)
        );
    }
    assert_eq!(
        ErrorTriggerContract::trigger_panic(),
        ErrorTriggerContract::trigger_panic()
    );
}
