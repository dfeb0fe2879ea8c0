use vstd::prelude::*;

verus! {

/// An error raised inside the library's own logic.
#[derive(Debug, Clone, Copy, PartialEq, Eq, Structural)]
pub enum MyError {
    Bad,
}

/// The error code that callers on the other side of the boundary see.
///
/// `Success` marks success, `NullPassed` a required pointer argument that was null,
/// `Panic` a panic caught at the boundary; every domain error collapses onto
/// `OtherError`.
#[derive(Debug, Clone, Copy, PartialEq, Eq, Structural)]
pub enum MyFFIError {
    Success,
    NullPassed,
    Panic,
    OtherError,
}

impl MyFFIError {
    /// The code that reports success.
    pub open spec fn is_success_code(self) -> bool {
        self is Success
    }

    /// The code that reports a null pointer argument.
    pub open spec fn is_null_code(self) -> bool {
        self is NullPassed
    }

    /// The code that reports a caught panic.
    pub open spec fn is_panic_code(self) -> bool {
        self is Panic
    }

    /// One of the three codes that the boundary itself gives meaning to.
    pub open spec fn is_distinguished(self) -> bool {
        self.is_success_code() || self.is_null_code() || self.is_panic_code()
    }
}

/// The code that a domain error becomes at the boundary.
pub open spec fn ffi_code_of(e: MyError) -> MyFFIError {
    match e {
        MyError::Bad => MyFFIError::OtherError,
    }
}

impl From<MyError> for MyFFIError {
    fn from(x: MyError) -> (r: MyFFIError) {
        match x {
            MyError::Bad => MyFFIError::OtherError,
        }
    }
}

impl vstd::std_specs::convert::FromSpecImpl<MyError> for MyFFIError {
    open spec fn obeys_from_spec() -> bool {
        true
    }

    open spec fn from_spec(v: MyError) -> MyFFIError {
        ffi_code_of(v)
    }
}

/// A domain failure never reaches the caller as success, as a null-pointer
/// report or as a caught panic: it always arrives as the catch-all code.
pub proof fn domain_error_is_catch_all(e: MyError)
    ensures
        <MyFFIError as vstd::std_specs::convert::FromSpec<MyError>>::from_spec(e)
            == MyFFIError::OtherError,
        !<MyFFIError as vstd::std_specs::convert::FromSpec<MyError>>::from_spec(e).is_distinguished(),
{
}

/// Each of the three roles of the boundary belongs to exactly one code.
pub proof fn roles_are_exclusive(c: MyFFIError)
    ensures
        c.is_success_code() <==> c == MyFFIError::Success,
        c.is_null_code() <==> c == MyFFIError::NullPassed,
        c.is_panic_code() <==> c == MyFFIError::Panic,
        !(c.is_success_code() && c.is_null_code()),
        !(c.is_success_code() && c.is_panic_code()),
        !(c.is_null_code() && c.is_panic_code()),
{
}

} // verus!
