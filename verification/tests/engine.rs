use dftd3::prelude::{DFTD3Error, DFTD3Param, ErrorChannel, Handle};

#[test]
fn test_dftd3_error() {
    let mut error = ErrorChannel::new();
    println!("Error check   : {}", error.is_set());
    println!("Error message : {}", error.message());
    assert!(!error.is_set());
    assert_eq!(error.message(), "");

    // the engine knows no method of this name and says so
    let request = DFTD3Param::load_optimizedpower_damping_f("Hello", false);
    error.set("No entry for 'Hello' present".to_string());
    println!("Error check   : {}", error.is_set());
    println!("Error message : {}", error.message());
    assert!(error.is_set());
    assert_eq!(error.message(), "No entry for 'Hello' present");
    assert_eq!(
        request.complete(Handle { address: 0 }, &error).unwrap_err(),
        DFTD3Error::UnknownMethod {
            name: "Hello".to_string(),
            message: "No entry for 'Hello' present".to_string()
        }
    );

    // a channel that is set stays set, whatever is asked next
    let request = DFTD3Param::load_optimizedpower_damping_f("B3LYP", false);
    println!("Error check   : {}", error.is_set());
    println!("Error message : {}", error.message());
    assert!(error.is_set());
    assert!(request.complete(Handle { address: 0x30 }, &error).is_err());
}

#[test]
fn a_later_message_replaces_an_earlier_one() {
    let mut error = ErrorChannel::new();
    error.set("first".to_string());
    error.set("second".to_string());
    assert!(error.is_set());
    assert_eq!(error.message(), "second");
}

#[test]
fn an_empty_message_still_sets_the_channel() {
    let mut error = ErrorChannel::new();
    error.set(String::new());
    assert!(error.is_set());
    assert_eq!(error.message(), "");
}
