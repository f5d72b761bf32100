//! Small decisions of the Vulkan renderer: reading names that the driver
//! reports, and choosing a memory type or an image format among the ones the
//! device offers.
use vstd::prelude::*;
use vstd::utf8::decode_utf8;
use vstd::utf8::encode_utf8;
use vstd::utf8::valid_utf8;

use crate::file::owned;
use crate::ris_error::new_err;
use crate::ris_error::unroll;
use crate::ris_error::RisError;
use crate::ris_error::RisErrorView;
use crate::ris_error::RisResult;
use crate::ris_error::SourceError;
use crate::video::vk::contains_flags;
use crate::video::vk::spec_contains_flags;
use crate::video::vk::FORMAT_D24_UNORM_S8_UINT;
use crate::video::vk::FORMAT_D32_SFLOAT;
use crate::video::vk::FORMAT_D32_SFLOAT_S8_UINT;
use crate::video::vk::FORMAT_FEATURE_DEPTH_STENCIL_ATTACHMENT;
use crate::video::vk::IMAGE_TILING_LINEAR;
use crate::video::vk::IMAGE_TILING_OPTIMAL;

verus! {

/// The text of `bytes` when they are valid UTF-8, through
/// `std::str::from_utf8`; otherwise what its error shows of itself. The
/// contract claims what the documentation of `from_utf8` states: it succeeds
/// exactly on valid UTF-8, and the text is what the bytes encode. The error's
/// texts are left unsaid.
#[verifier::external_body]
fn utf8_to_string(bytes: &[u8]) -> (res: Result<String, SourceError>)
    ensures
        res is Ok <==> valid_utf8(bytes@),
        res matches Ok(s) ==> s@ == decode_utf8(bytes@),
{
    match std::str::from_utf8(bytes) {
        Ok(s) => Ok(s.to_owned()),
        Err(e) => Err(SourceError { display: format!("{}", e), debug: format!("{:?}", e) }),
    }
}

/// The position of the first NUL in a C character array.
pub open spec fn first_nul(value: Seq<i8>) -> int {
    choose|i: int| 0 <= i < value.len() && value[i] == 0 && forall|j: int| 0 <= j < i ==> value[j] != 0
}

/// The bytes of a C string held in `value`: those before its first NUL.
pub open spec fn c_string_bytes(value: Seq<i8>) -> Seq<u8> {
    value.subrange(0, first_nul(value)).map_values(|c: i8| c as u8)
}

/// A name reported by the Vulkan driver.
pub struct VkStr {
    value: String,
}

impl View for VkStr {
    type V = Seq<char>;

    closed spec fn view(&self) -> Seq<char> {
        self.value@
    }
}

impl VkStr {
    /// Reads the NUL-terminated string in `value`, which must hold a NUL. The
    /// bytes before the first NUL must be UTF-8, and the text then encodes
    /// back to exactly those bytes; otherwise the result is an error raised
    /// at `file:line` whose source is the decoding error.
    pub fn from(value: &[i8], file: String, line: u32) -> (res: RisResult<VkStr>)
        requires
            value@.contains(0i8),
        ensures
            res is Ok <==> valid_utf8(c_string_bytes(value@)),
            res matches Ok(s) ==> s@ == decode_utf8(c_string_bytes(value@)),
            res matches Ok(s) ==> encode_utf8(s@) == c_string_bytes(value@),
            res matches Err(e) ==> e@.message == "C string is not valid UTF-8"@ && e@.file == file@
                && e@.line == line && e@.source is Some,
    {
        let mut bytes: Vec<u8> = Vec::new();
        let mut i: usize = 0;
        while value[i] != 0
            invariant
                value@.contains(0i8),
                i < value@.len(),
                forall|j: int| 0 <= j < i ==> value@[j] != 0,
                bytes@ == value@.subrange(0, i as int).map_values(|c: i8| c as u8),
            decreases value@.len() - i,
        {
            bytes.push(value[i] as u8);
            i = i + 1;
            proof {
                assert(bytes@ =~= value@.subrange(0, i as int).map_values(|c: i8| c as u8));
                if i == value@.len() {
                    let k = choose|k: int| 0 <= k < value@.len() && value@[k] == 0i8;
                    assert(value@[k] != 0);
                }
            }
        }
        proof {
            let f = first_nul(value@);
            assert(0 <= i < value@.len() && value@[i as int] == 0 && forall|j: int|
                0 <= j < i ==> value@[j] != 0);
            if f != i {
                if f < i {
                    assert(value@[f] != 0);
                } else {
                    assert(value@[i as int] != 0);
                }
            }
            if valid_utf8(bytes@) {
                vstd::utf8::decode_utf8_encode_utf8(bytes@);
            }
        }
        match utf8_to_string(bytes.as_slice()) {
            Ok(text) => Ok(VkStr { value: text }),
            Err(e) => {
                let r: RisResult<String> = unroll(
                    Err(e),
                    owned("C string is not valid UTF-8"),
                    file,
                    line,
                );
                match r {
                    Ok(text) => Ok(VkStr { value: text }),
                    Err(e) => Err(e),
                }
            },
        }
    }

    pub fn as_str(&self) -> (res: &str)
        ensures
            res@ == self@,
    {
        self.value.as_str()
    }
}

/// Whether memory type `i`, with the property flags `memory_type_flags[i]`,
/// is allowed by the bit mask `type_filter` and has all of `wanted`.
pub open spec fn memory_type_suitable(type_filter: u32, wanted: u32, memory_type_flags: Seq<u32>, i: int) -> bool {
    &&& 0 <= i < memory_type_flags.len()
    &&& type_filter & (1u32 << (i as u32)) > 0
    &&& spec_contains_flags(memory_type_flags[i], wanted)
}

/// The first memory type that `type_filter` allows and that has all of the
/// wanted property flags, among the device's memory types (at most 32),
/// given by their property flags.
pub fn find_memory_type(type_filter: u32, memory_property_flags: u32, memory_type_flags: &[u32]) -> (res:
    RisResult<Option<u32>>)
    requires
        memory_type_flags@.len() <= 32,
    ensures
        res matches Ok(found) && match found {
            Some(i) => memory_type_suitable(type_filter, memory_property_flags, memory_type_flags@, i as int)
                && forall|j: int|
                0 <= j < i ==> !memory_type_suitable(
                    type_filter,
                    memory_property_flags,
                    memory_type_flags@,
                    j,
                ),
            None => forall|j: int|
                !memory_type_suitable(type_filter, memory_property_flags, memory_type_flags@, j),
        },
{
    let mut i: usize = 0;
    while i < memory_type_flags.len()
        invariant
            memory_type_flags@.len() <= 32,
            i <= memory_type_flags@.len(),
            forall|j: int|
                0 <= j < i ==> !memory_type_suitable(
                    type_filter,
                    memory_property_flags,
                    memory_type_flags@,
                    j,
                ),
        decreases memory_type_flags@.len() - i,
    {
        let bit: u32 = 1u32 << (i as u32);
        if type_filter & bit > 0 && contains_flags(memory_type_flags[i], memory_property_flags) {
            return Ok(Some(i as u32));
        }
        i = i + 1;
    }
    Ok(None)
}

/// Whether a depth format also holds a stencil component.
pub fn has_stencil_component(format: i32) -> (res: bool)
    ensures
        res == (format == FORMAT_D32_SFLOAT_S8_UINT || format == FORMAT_D24_UNORM_S8_UINT),
{
    format == FORMAT_D32_SFLOAT_S8_UINT || format == FORMAT_D24_UNORM_S8_UINT
}

/// The features a device offers for a format, by image tiling.
#[derive(Clone, Copy)]
pub struct FormatProperties {
    pub linear_tiling_features: u32,
    pub optimal_tiling_features: u32,
}

/// Whether a format with the properties `p` offers `features` for `tiling`.
pub open spec fn format_supported(p: FormatProperties, tiling: i32, features: u32) -> bool {
    ||| tiling == IMAGE_TILING_LINEAR && spec_contains_flags(p.linear_tiling_features, features)
    ||| tiling == IMAGE_TILING_OPTIMAL && spec_contains_flags(p.optimal_tiling_features, features)
}

/// The first of `candidates` that the device offers `features` for with
/// `tiling`, where `candidate_properties[i]` are the device's properties for
/// `candidates[i]`. When there is none, the result is the error "failed to
/// find supported format" raised at `file:line`.
pub fn find_supported_format(
    candidates: &[i32],
    candidate_properties: &[FormatProperties],
    tiling: i32,
    features: u32,
    file: String,
    line: u32,
) -> (res: RisResult<i32>)
    requires
        candidates@.len() == candidate_properties@.len(),
    ensures
        match res {
            Ok(format) => exists|i: int|
                0 <= i < candidates@.len() && candidates@[i] == format && format_supported(
                    candidate_properties@[i],
                    tiling,
                    features,
                ) && forall|j: int|
                    0 <= j < i ==> !format_supported(
                        #[trigger] candidate_properties@[j],
                        tiling,
                        features,
                    ),
            Err(e) => (forall|j: int|
                0 <= j < candidates@.len() ==> !format_supported(
                    #[trigger] candidate_properties@[j],
                    tiling,
                    features,
                )) && e@ == (RisErrorView {
                source: None,
                message: "failed to find supported format"@,
                file: file@,
                line,
            }),
        },
{
    let mut i: usize = 0;
    while i < candidates.len()
        invariant
            candidates@.len() == candidate_properties@.len(),
            i <= candidates@.len(),
            forall|j: int|
                0 <= j < i ==> !format_supported(#[trigger] candidate_properties@[j], tiling, features),
        decreases candidates@.len() - i,
    {
        let properties = candidate_properties[i];
        if tiling == IMAGE_TILING_LINEAR && contains_flags(properties.linear_tiling_features, features) {
            return Ok(candidates[i]);
        }
        if tiling == IMAGE_TILING_OPTIMAL && contains_flags(properties.optimal_tiling_features, features) {
            return Ok(candidates[i]);
        }
        i = i + 1;
    }
    Err(new_err(owned("failed to find supported format"), file, line))
}

/// The depth formats the renderer accepts, best first.
pub fn depth_format_candidates() -> (res: Vec<i32>)
    ensures
        res@ == seq![FORMAT_D32_SFLOAT, FORMAT_D32_SFLOAT_S8_UINT, FORMAT_D24_UNORM_S8_UINT],
{
    let mut res: Vec<i32> = Vec::new();
    res.push(FORMAT_D32_SFLOAT);
    res.push(FORMAT_D32_SFLOAT_S8_UINT);
    res.push(FORMAT_D24_UNORM_S8_UINT);
    res
}

/// The depth format of the renderer: the first of
/// [`depth_format_candidates`] that the device can use as a depth and stencil
/// attachment with optimal tiling, where `candidate_properties[i]` are the
/// device's properties for the `i`-th candidate.
pub fn find_depth_format(candidate_properties: &[FormatProperties], file: String, line: u32) -> (res:
    RisResult<i32>)
    requires
        candidate_properties@.len() == 3,
    ensures
        match res {
            Ok(format) => exists|i: int|
                0 <= i < 3 && seq![FORMAT_D32_SFLOAT, FORMAT_D32_SFLOAT_S8_UINT, FORMAT_D24_UNORM_S8_UINT][i]
                    == format && format_supported(
                    candidate_properties@[i],
                    IMAGE_TILING_OPTIMAL,
                    FORMAT_FEATURE_DEPTH_STENCIL_ATTACHMENT,
                ) && forall|j: int|
                    0 <= j < i ==> !format_supported(
                        #[trigger] candidate_properties@[j],
                        IMAGE_TILING_OPTIMAL,
                        FORMAT_FEATURE_DEPTH_STENCIL_ATTACHMENT,
                    ),
            Err(e) => (forall|j: int|
                0 <= j < 3 ==> !format_supported(
                    #[trigger] candidate_properties@[j],
                    IMAGE_TILING_OPTIMAL,
                    FORMAT_FEATURE_DEPTH_STENCIL_ATTACHMENT,
                )) && e@ == (RisErrorView {
                source: None,
                message: "failed to find supported format"@,
                file: file@,
                line,
            }),
        },
{
    let candidates = depth_format_candidates();
    find_supported_format(
        candidates.as_slice(),
        candidate_properties,
        IMAGE_TILING_OPTIMAL,
        FORMAT_FEATURE_DEPTH_STENCIL_ATTACHMENT,
        file,
        line,
    )
}

} // verus!
