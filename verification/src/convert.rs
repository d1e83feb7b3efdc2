//! Turning absent values and foreign errors into `std::io::Error`, the error
//! type of the asynchronous I/O layer.
use vstd::prelude::*;

verus! {

#[verifier::external_type_specification]
#[verifier::external_body]
pub struct ExIoError(std::io::Error);

/// The error's kind is `std::io::ErrorKind::Other` (what `e.kind()` returns).
pub uninterp spec fn io_error_is_other(e: std::io::Error) -> bool;

/// The text of the error (what `e.to_string()` returns).
pub uninterp spec fn io_error_message(e: std::io::Error) -> Seq<char>;

/// `std::io::Error::new(ErrorKind::Other, msg)`: an error of kind `Other`
/// whose text is `msg` (a custom error displays its payload, here the
/// `String` made from `msg`).
#[verifier::external_body]
pub(crate) fn other_io_error(msg: &str) -> (e: std::io::Error)
    ensures
        io_error_is_other(e),
        io_error_message(e) == msg@,
{
    std::io::Error::new(std::io::ErrorKind::Other, msg)
}

/// `Some(v)` becomes `Ok(v)`; `None` becomes an error of kind `Other` with
/// the message `msg`.
pub fn option_convert<T>(o: Option<T>, msg: &str) -> (r: Result<T, std::io::Error>)
    ensures
        match o {
            Some(v) => r matches Ok(x) && x == v,
            None => r matches Err(e) && io_error_is_other(e) && io_error_message(e) == msg@,
        },
{
    match o {
        Some(v) => Ok(v),
        None => Err(other_io_error(msg)),
    }
}

/// `Ok(v)` stays `Ok(v)`; an error `e` becomes an error of kind `Other`
/// whose message is `f(e)`.
pub fn std_res_convert<T, E, F: Fn(E) -> String>(res: Result<T, E>, f: F) -> (r: Result<T, std::io::Error>)
    requires
        forall|e: E| #[trigger] f.requires((e,)),
    ensures
        match res {
            Ok(v) => r matches Ok(x) && x == v,
            Err(e0) => r matches Err(e) && io_error_is_other(e) && exists|s: String|
                #[trigger] f.ensures((e0,), s) && io_error_message(e) == s@,
        },
{
    match res {
        Ok(v) => Ok(v),
        Err(e) => {
            let msg = f(e);
            Err(other_io_error(msg.as_str()))
        },
    }
}

/// Turns an `Option` into an I/O result, with a message for `None`.
pub trait OptionConvert<T>: Sized {
    fn option_to_res(self, msg: &str) -> Result<T, std::io::Error>;
}

impl<T> OptionConvert<T> for Option<T> {
    fn option_to_res(self, msg: &str) -> (r: Result<T, std::io::Error>)
        ensures
            match self {
                Some(v) => r matches Ok(x) && x == v,
                None => r matches Err(e) && io_error_is_other(e) && io_error_message(e) == msg@,
            },
    {
        option_convert(self, msg)
    }
}

/// Turns a `Result` into an I/O result, with the error's message made by `f`.
pub trait StdResConvert<T, E>: Sized {
    fn res_convert<F: Fn(E) -> String>(self, f: F) -> Result<T, std::io::Error>
        requires
            forall|e: E| #[trigger] f.requires((e,)),
    ;
}

impl<T, E> StdResConvert<T, E> for Result<T, E> {
    fn res_convert<F: Fn(E) -> String>(self, f: F) -> (r: Result<T, std::io::Error>)
        ensures
            match self {
                Ok(v) => r matches Ok(x) && x == v,
                Err(e0) => r matches Err(e) && io_error_is_other(e) && exists|s: String|
                    #[trigger] f.ensures((e0,), s) && io_error_message(e) == s@,
            },
    {
        std_res_convert(self, f)
    }
}

/// Turns a `Result` into an I/O result, with the error's own text as the
/// message.
pub trait StdResAutoConvert<T, E: std::fmt::Display>: Sized {
    fn res_auto_convert(self) -> Result<T, std::io::Error>;
}

impl<T, E: std::fmt::Display> StdResAutoConvert<T, E> for Result<T, E> {
    fn res_auto_convert(self) -> (r: Result<T, std::io::Error>)
        ensures
            match self {
                Ok(v) => r matches Ok(x) && x == v,
                Err(e0) => r matches Err(e) && io_error_is_other(e) && exists|s: String|
                    #[trigger] vstd::string::to_string_from_display_ensures::<E>(&e0, s)
                        && io_error_message(e) == s@,
            },
    {
        let text = |e: E| -> (s: String)
            ensures
                vstd::string::to_string_from_display_ensures::<E>(&e, s),
            { e.to_string() };
        let ghost original = self;
        let r = std_res_convert(self, text);
        proof {
            if let Err(e0) = original {
                let s = choose|s: String| #[trigger] text.ensures((e0,), s) && io_error_message(r->Err_0) == s@;
                assert(vstd::string::to_string_from_display_ensures::<E>(&e0, s));
            }
        }
        r
    }
}

} // verus!
