use op65::context::AddressError;

#[test]
fn unavailable_message() {
    assert_eq!(
        AddressError::Unavailable(0x1234).to_string(),
        "<AddressError> Address unavailable: $1234"
    );
}

#[test]
fn read_only_message() {
    assert_eq!(
        AddressError::ReadOnly(0xC000).to_string(),
        "<AddressError> Address read-only: $C000"
    );
}

#[test]
fn write_only_message() {
    assert_eq!(
        AddressError::WriteOnly(0x2007).to_string(),
        "<AddressError> Address write-only: $2007"
    );
}

#[test]
fn halt_message() {
    assert_eq!(AddressError::Halt(0xFFFF).to_string(), "<AddressError> Address halt: $FFFF");
}

#[test]
fn out_of_bounds_message() {
    assert_eq!(AddressError::OutOfBounds.to_string(), "<AddressError> Address out of bounds");
}

#[test]
fn address_is_padded_to_four_digits() {
    assert_eq!(
        AddressError::Unavailable(0x0000).to_string(),
        "<AddressError> Address unavailable: $0000"
    );
    assert_eq!(AddressError::Halt(0x00FF).to_string(), "<AddressError> Address halt: $00FF");
    assert_eq!(AddressError::Halt(0x0A0B).to_string(), "<AddressError> Address halt: $0A0B");
}

#[test]
fn address_digits_are_upper_case() {
    assert_eq!(
        AddressError::ReadOnly(0xABCD).to_string(),
        "<AddressError> Address read-only: $ABCD"
    );
    assert_eq!(
        AddressError::WriteOnly(0x9EF0).to_string(),
        "<AddressError> Address write-only: $9EF0"
    );
}

#[test]
fn message_agrees_with_std_formatting_on_a_sweep() {
    let mut at: u32 = 0;
    while at <= 0xFFFF {
        let a = at as u16;
        assert_eq!(
            AddressError::Unavailable(a).to_string(),
            format!("<AddressError> Address unavailable: ${:04X}", a)
        );
        at += 0x0137;
    }
}

#[test]
fn errors_compare_by_kind_and_address() {
    assert_eq!(AddressError::Halt(1), AddressError::Halt(1));
    assert_ne!(AddressError::Halt(1), AddressError::Halt(2));
    assert_ne!(AddressError::Halt(1), AddressError::Unavailable(1));
    assert_ne!(AddressError::OutOfBounds, AddressError::Unavailable(0));
}
