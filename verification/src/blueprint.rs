//! The blueprint's job: greet whoever the job was called for.

use std::convert::Infallible;
use vstd::prelude::*;

verus! {

/// What a job sees of the service it runs in.
#[derive(Debug, Clone, Copy)]
pub struct ServiceContext {
    /// The call this job runs for, if known.
    pub call_id: Option<u64>,
}

/// The greeting for `who`: `Hello, {who}!`, or `Hello World!` for nobody.
pub open spec fn greeting(who: Option<Seq<char>>) -> Seq<char> {
    match who {
        Some(name) => "Hello, "@ + name + "!"@,
        None => "Hello World!"@,
    }
}

/// Returns "Hello World!" if `who` is `None`, otherwise returns "Hello, {who}!"
pub fn say_hello(who: Option<String>, context: ServiceContext) -> (res: Result<String, Infallible>)
    ensures
        res matches Ok(s) && s@ == greeting(
            match who {
                Some(w) => Some(w@),
                None => None,
            },
        ),
{
    match who {
        Some(who) => {
            let mut s = "Hello, ".to_owned();
            s.append(who.as_str());
            s.append("!");
            Ok(s)
        },
        None => Ok("Hello World!".to_owned()),
    }
}

} // verus!
