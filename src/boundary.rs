use vstd::prelude::*;
use vstd::string::StringExecFns;

verus! {

/// The greeting returned to the host for `who`: `Hello <who>!`.
pub fn greet(who: &str) -> (r: String)
    ensures
        r@ == "Hello "@ + who@ + "!"@,
{
    let mut s = String::from_str("Hello ");
    s.append(who);
    s.append("!");
    s
}

/// The greeting with a waving hand: `Hello 👋 <who>!`.
pub fn greet_waving(who: &str) -> (r: String)
    ensures
        r@ == "Hello 👋 "@ + who@ + "!"@,
{
    let mut s = String::from_str("Hello 👋 ");
    s.append(who);
    s.append("!");
    s
}

/// Sum of two 32-bit integers; the sum must fit.
pub fn add_numbers(a: i32, b: i32) -> (r: i32)
    requires
        i32::MIN <= a + b <= i32::MAX,
    ensures
        r == a + b,
{
    a + b
}

/// The text reported to the host after fetching a page: the page's text on
/// success, the error's description otherwise.
pub fn fetch_reply(res: &Result<String, String>) -> (r: String)
    ensures
        match res {
            Ok(s) => r@ == "Google.ch says: "@ + s@,
            Err(e) => r@ == "Error while calling google: "@ + e@,
        },
{
    match res {
        Ok(s) => {
            let mut out = String::from_str("Google.ch says: ");
            out.append(s.as_str());
            out
        },
        Err(e) => {
            let mut out = String::from_str("Error while calling google: ");
            out.append(e.as_str());
            out
        },
    }
}

} // verus!
