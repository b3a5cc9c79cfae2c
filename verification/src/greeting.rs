//! A small greeting helper: greets the given name, falling back to the
//! world when the name is empty.

use vstd::prelude::*;
use vstd::string::StringExecFns;

verus! {

/// Returns `"hello world"` for an empty name and `"hello "` followed by the
/// name otherwise.
pub fn hello_world(name: String) -> (r: String)
    ensures
        name@.len() == 0 ==> r@ == "hello world"@,
        name@.len() != 0 ==> r@ == "hello "@ + name@,
{
    if name == String::new() {
        "hello world".to_owned()
    } else {
        proof {
            if name@.len() == 0 {
                assert(name@ =~= Seq::<char>::empty());
            }
        }
        let mut greeting = "hello ".to_owned();
        greeting.append(name.as_str());
        greeting
    }
}

} // verus!
