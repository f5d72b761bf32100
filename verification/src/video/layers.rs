//! The validation layers the renderer asks for, and how the messages the
//! validation layers send back are logged.
use vstd::prelude::*;

use crate::file::owned;
use crate::least::lemma_least_witness;
use crate::name_order::views;
use crate::video::vk::DEBUG_SEVERITY_ERROR;
use crate::video::vk::DEBUG_SEVERITY_INFO;
use crate::video::vk::DEBUG_SEVERITY_VERBOSE;
use crate::video::vk::DEBUG_SEVERITY_WARNING;
use crate::video::vk::DEBUG_TYPE_GENERAL;
use crate::video::vk::DEBUG_TYPE_PERFORMANCE;
use crate::video::vk::DEBUG_TYPE_VALIDATION;

verus! {

/// The instance layers the renderer asks for when validation is on.
pub fn required_instance_layers() -> (res: Vec<String>)
    ensures
        views(res@) == seq!["VK_LAYER_KHRONOS_validation"@],
{
    let mut res: Vec<String> = Vec::new();
    res.push(owned("VK_LAYER_KHRONOS_validation"));
    assert(views(res@) =~= seq!["VK_LAYER_KHRONOS_validation"@]);
    res
}

/// The position of the first of `available` named `name`.
pub open spec fn first_named(available: Seq<Seq<char>>, name: Seq<char>) -> Option<int> {
    if available.contains(name) {
        Some(choose|i: int| 0 <= i < available.len() && available[i] == name && forall|j: int| 0 <= j < i ==> available[j] != name)
    } else {
        None
    }
}

/// [`first_named`] finds a name exactly when it is among `available`, and
/// then gives the first position that holds it.
pub proof fn lemma_first_named(available: Seq<Seq<char>>, name: Seq<char>)
    ensures
        (first_named(available, name) is Some) == available.contains(name),
        first_named(available, name) matches Some(i) ==> 0 <= i < available.len() && available[i]
            == name && forall|j: int| 0 <= j < i ==> available[j] != name,
{
    if available.contains(name) {
        let k = choose|k: int| 0 <= k < available.len() && available[k] == name;
        let p = |i: int| 0 <= i < available.len() && available[i] == name;
        lemma_least_witness(p, 0, k);
        let w = choose|i: int| 0 <= i <= k && #[trigger] p(i) && forall|j: int| 0 <= j < i ==> !#[trigger] p(j);
        assert(0 <= w < available.len() && available[w] == name && forall|j: int|
            0 <= j < w ==> available[j] != name) by {
            assert forall|j: int| 0 <= j < w implies available[j] != name by {
                assert(!p(j));
            }
        }
    }
}

fn find_first(available: &Vec<String>, name: &String) -> (res: Option<usize>)
    ensures
        res is None <==> first_named(views(available@), name@) is None,
        res matches Some(i) ==> i < available@.len() && first_named(views(available@), name@) == Some(i as int),
{
    let mut i: usize = 0;
    while i < available.len()
        invariant
            i <= available@.len(),
            forall|j: int| 0 <= j < i ==> views(available@)[j] != name@,
        decreases available@.len() - i,
    {
        if available[i] == *name {
            proof {
                let a = views(available@);
                assert(a[i as int] == name@);
                let c = choose|c: int| 0 <= c < a.len() && a[c] == name@ && forall|j: int| 0 <= j < c ==> a[j] != name@;
                assert(c == i);
            }
            return Some(i);
        }
        i = i + 1;
    }
    None
}

/// For each of the `required` layers, the position among the `available`
/// ones of the first that has its name; nothing for a layer that is missing.
pub fn find_layers(required: &Vec<String>, available: &Vec<String>) -> (res: Vec<Option<usize>>)
    ensures
        res@.len() == required@.len(),
        forall|i: int| 0 <= i < required@.len() ==> match #[trigger] res@[i] {
            Some(k) => first_named(views(available@), views(required@)[i]) == Some(k as int),
            None => first_named(views(available@), views(required@)[i]) is None,
        },
{
    let mut res: Vec<Option<usize>> = Vec::new();
    let mut i: usize = 0;
    while i < required.len()
        invariant
            i <= required@.len(),
            res@.len() == i,
            forall|k: int| 0 <= k < i ==> match #[trigger] res@[k] {
                Some(p) => first_named(views(available@), views(required@)[k]) == Some(p as int),
                None => first_named(views(available@), views(required@)[k]) is None,
            },
        decreases required@.len() - i,
    {
        let found = find_first(available, &required[i]);
        res.push(found);
        i = i + 1;
    }
    res
}

/// How important a logged message is.
#[derive(Clone, Copy, PartialEq, Eq, Structural, Debug)]
pub enum LogLevel {
    Trace,
    Debug,
    Info,
    Warning,
    Error,
}

/// The log level of a message from the validation layers with the given
/// severity: verbose, info, warning and error each have their own, anything
/// else is logged as debug.
pub open spec fn spec_log_level(severity: u32) -> LogLevel {
    if severity == DEBUG_SEVERITY_VERBOSE {
        LogLevel::Trace
    } else if severity == DEBUG_SEVERITY_INFO {
        LogLevel::Info
    } else if severity == DEBUG_SEVERITY_WARNING {
        LogLevel::Warning
    } else if severity == DEBUG_SEVERITY_ERROR {
        LogLevel::Error
    } else {
        LogLevel::Debug
    }
}

/// The log level of a message from the validation layers.
pub fn log_level_for_severity(severity: u32) -> (res: LogLevel)
    ensures
        res == spec_log_level(severity),
{
    if severity == DEBUG_SEVERITY_VERBOSE {
        LogLevel::Trace
    } else if severity == DEBUG_SEVERITY_INFO {
        LogLevel::Info
    } else if severity == DEBUG_SEVERITY_WARNING {
        LogLevel::Warning
    } else if severity == DEBUG_SEVERITY_ERROR {
        LogLevel::Error
    } else {
        LogLevel::Debug
    }
}

/// The name under which a message of the given type is logged.
pub open spec fn spec_message_type_name(message_type: u32) -> Seq<char> {
    if message_type == DEBUG_TYPE_GENERAL {
        "GENERAL"@
    } else if message_type == DEBUG_TYPE_PERFORMANCE {
        "PERFORMANCE"@
    } else if message_type == DEBUG_TYPE_VALIDATION {
        "VALIDATION"@
    } else {
        "unknown"@
    }
}

/// The name under which a message of the given type is logged.
pub fn message_type_name(message_type: u32) -> (res: &'static str)
    ensures
        res@ == spec_message_type_name(message_type),
{
    if message_type == DEBUG_TYPE_GENERAL {
        "GENERAL"
    } else if message_type == DEBUG_TYPE_PERFORMANCE {
        "PERFORMANCE"
    } else if message_type == DEBUG_TYPE_VALIDATION {
        "VALIDATION"
    } else {
        "unknown"
    }
}

/// The line logged for a message from the validation layers.
pub fn callback_log_text(message_type: u32, message: &str) -> (res: String)
    ensures
        res@ == "VULKAN "@ + spec_message_type_name(message_type) + " | "@ + message@,
{
    let mut out = owned("VULKAN ");
    out.append(message_type_name(message_type));
    out.append(" | ");
    out.append(message);
    out
}

} // verus!
