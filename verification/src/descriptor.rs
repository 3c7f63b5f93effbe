//! Method descriptors, such as `(I[Ljava/lang/String;)V`: how many
//! parameters one declares.

use vstd::prelude::*;
use vstd::string::StrSliceExecFns;

verus! {

/// Where a scan of the parameter list stands.
#[derive(Clone, Copy, PartialEq, Eq, Structural)]
pub enum Scan {
    /// Before a parameter, or before the closing bracket.
    Parameter,
    /// After one or more `[`: the element type of an array must follow.
    Element,
    /// Inside the name of a class, which a `;` ends.
    ClassName,
}

/// Whether `c` stands for a primitive type.
pub open spec fn is_primitive(c: char) -> bool {
    c == 'B' || c == 'C' || c == 'D' || c == 'F' || c == 'I' || c == 'J' || c == 'S' || c == 'Z'
}

/// Number of parameters that start at or after `at`, up to the closing
/// bracket, for a scan that stands at `at` in state `state`. `None` where the
/// descriptor is malformed.
pub open spec fn count_parameters(desc: Seq<char>, at: int, state: Scan) -> Option<nat>
    decreases desc.len() - at,
{
    if at < 0 || at >= desc.len() {
        None
    } else {
        match state {
            Scan::ClassName => if desc[at] == ';' {
                count_parameters(desc, at + 1, Scan::Parameter)
            } else {
                count_parameters(desc, at + 1, Scan::ClassName)
            },
            _ => if desc[at] == ')' && state == Scan::Parameter {
                Some(0)
            } else if desc[at] == '[' {
                count_parameters(desc, at + 1, Scan::Element)
            } else if is_primitive(desc[at]) {
                one_more(count_parameters(desc, at + 1, Scan::Parameter))
            } else if desc[at] == 'L' {
                one_more(count_parameters(desc, at + 1, Scan::ClassName))
            } else {
                None
            },
        }
    }
}

pub open spec fn one_more(n: Option<nat>) -> Option<nat> {
    match n {
        Some(n) => Some(n + 1),
        None => None,
    }
}

pub open spec fn some_more(n: Option<nat>, more: nat) -> Option<nat> {
    match n {
        Some(n) => Some(n + more),
        None => None,
    }
}

/// Number of parameters of a method descriptor, or `None` where it is not of
/// the form `(parameters)result`.
pub open spec fn descriptor_arity(desc: Seq<char>) -> Option<nat> {
    if desc.len() > 0 && desc[0] == '(' {
        count_parameters(desc, 1, Scan::Parameter)
    } else {
        None
    }
}

/// Counts the parameters of a method descriptor.
pub fn arity(desc: &str) -> (r: Option<usize>)
    ensures
        match r {
            Some(n) => descriptor_arity(desc@) == Some(n as nat) && n < usize::MAX,
            None => descriptor_arity(desc@) is None,
        },
{
    let len: usize = desc.unicode_len();
    if len == 0 || desc.get_char(0) != '(' {
        return None;
    }
    let mut at: usize = 1;
    let mut state = Scan::Parameter;
    let mut count: usize = 0;
    while at < len
        invariant
            len == desc@.len(),
            1 <= at <= len,
            count <= at,
            descriptor_arity(desc@) == some_more(
                count_parameters(desc@, at as int, state),
                count as nat,
            ),
        decreases len - at,
    {
        let c = desc.get_char(at);
        match state {
            Scan::ClassName => {
                if c == ';' {
                    state = Scan::Parameter;
                }
            },
            _ => {
                if c == ')' && state == Scan::Parameter {
                    return Some(count);
                } else if c == '[' {
                    state = Scan::Element;
                } else if c == 'B' || c == 'C' || c == 'D' || c == 'F' || c == 'I' || c == 'J' || c
                    == 'S' || c == 'Z' {
                    state = Scan::Parameter;
                    count = count + 1;
                } else if c == 'L' {
                    state = Scan::ClassName;
                    count = count + 1;
                } else {
                    return None;
                }
            },
        }
        at = at + 1;
    }
    None
}

} // verus!
