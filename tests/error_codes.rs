use csharp::{MyError, MyFFIError};

#[test]
fn domain_error_maps_to_catch_all() {
    let code = MyFFIError::from(MyError::Bad);
    assert_eq!(code, MyFFIError::OtherError);
}

#[test]
fn domain_error_is_never_a_distinguished_code() {
    let code: MyFFIError = MyError::Bad.into();
    assert_ne!(code, MyFFIError::Success);
    assert_ne!(code, MyFFIError::NullPassed);
    assert_ne!(code, MyFFIError::Panic);
}

#[test]
fn codes_are_distinct() {
    let all = [MyFFIError::Success, MyFFIError::NullPassed, MyFFIError::Panic, MyFFIError::OtherError];
    for i in 0..all.len() {
        for j in 0..all.len() {
            assert_eq!(all[i] == all[j], i == j);
        }
    }
}
