//! Device selection: enumeration hands the library a list of plain
//! descriptors, and selection picks the first whose metadata string
//! contains the configured identifier as a case-insensitive substring,
//! with a strict-or-fallback policy when nothing matches.

use vstd::prelude::*;
use vstd::string::StrSliceExecFns;
use crate::PipelineError;

verus! {

/// One discovered capture device: its enumeration index, valid only for
/// the immediately following open call, and the metadata string used for
/// matching.
pub struct DeviceDescriptor {
    /// Index reported by the enumeration; ephemeral.
    pub index: usize,
    /// Human/metadata string the configured identifier is matched against.
    pub misc: String,
}

/// The lowercase folding of a character sequence, as the standard library
/// computes it.  The folding depends on the characters alone.
pub uninterp spec fn lower_of(s: Seq<char>) -> Seq<char>;

/// Relies on str::to_lowercase: the result is a function of the input
/// characters alone, and an empty string stays empty.
#[verifier::external_body]
fn lowercase(s: &str) -> (r: String)
    ensures
        r@ == lower_of(s@),
        s@.len() == 0 ==> r@.len() == 0,
{
    s.to_lowercase()
}

/// `needle` occurs in `hay` starting at position `i`.
pub open spec fn match_at(hay: Seq<char>, needle: Seq<char>, i: int) -> bool {
    0 <= i && i + needle.len() <= hay.len() && hay.subrange(i, i + needle.len() as int)
        == needle
}

/// `needle` occurs somewhere in `hay`; an empty needle occurs in every hay.
pub open spec fn contains_sub(hay: Seq<char>, needle: Seq<char>) -> bool {
    exists|i: int| match_at(hay, needle, i)
}

fn match_at_exec(hay: &str, needle: &str, i: usize, nn: usize) -> (r: bool)
    requires
        nn == needle@.len(),
        i + nn <= hay@.len(),
        hay@.len() <= usize::MAX,
    ensures
        r == match_at(hay@, needle@, i as int),
{
    let mut j: usize = 0;
    while j < nn
        invariant
            nn == needle@.len(),
            i + nn <= hay@.len(),
            hay@.len() <= usize::MAX,
            0 <= j <= nn,
            forall|k: int| 0 <= k < j ==> hay@[i + k] == needle@[k],
        decreases nn - j,
    {
        if hay.get_char(i + j) != needle.get_char(j) {
            proof {
                if match_at(hay@, needle@, i as int) {
                    assert(hay@.subrange(i as int, i + needle@.len() as int)[j as int]
                        == hay@[i + j]);
                }
            }
            return false;
        }
        j += 1;
    }
    proof {
        assert(hay@.subrange(i as int, i + needle@.len() as int) =~= needle@);
    }
    true
}

/// Decides whether `needle` is a substring of `hay`, character-exact.
pub fn contains_substr(hay: &str, needle: &str) -> (r: bool)
    ensures
        r == contains_sub(hay@, needle@),
{
    let hn = hay.unicode_len();
    let nn = needle.unicode_len();
    if nn > hn {
        proof {
            assert(forall|i: int| !match_at(hay@, needle@, i));
        }
        return false;
    }
    if nn == 0 {
        proof {
            assert(hay@.subrange(0, 0) =~= needle@);
            assert(match_at(hay@, needle@, 0));
        }
        return true;
    }
    let mut i: usize = 0;
    while i <= hn - nn
        invariant
            0 < nn <= hn,
            hn == hay@.len(),
            nn == needle@.len(),
            0 <= i <= hn - nn + 1,
            forall|k: int| 0 <= k < i ==> !match_at(hay@, needle@, k),
        decreases hn - nn + 1 - i,
    {
        if match_at_exec(hay, needle, i, nn) {
            proof {
                assert(match_at(hay@, needle@, i as int));
            }
            return true;
        }
        i += 1;
    }
    proof {
        assert forall|k: int| !match_at(hay@, needle@, k) by {
            if match_at(hay@, needle@, k) {
                assert(0 <= k <= hn - nn);
            }
        }
    }
    false
}

/// The device's metadata string contains the configured identifier as a
/// case-insensitive substring.
pub open spec fn device_matches(d: DeviceDescriptor, id: Seq<char>) -> bool {
    contains_sub(lower_of(d.misc@), lower_of(id))
}

/// Position of the first matching device in enumeration order, if any.
pub open spec fn first_match_pos(devs: Seq<DeviceDescriptor>, id: Seq<char>) -> Option<int>
    decreases devs.len(),
{
    if devs.len() == 0 {
        None
    } else if device_matches(devs[0], id) {
        Some(0int)
    } else {
        match first_match_pos(devs.drop_first(), id) {
            Some(p) => Some(p + 1),
            None => None,
        }
    }
}

/// What `first_match_pos` finds is a match, is the first one, and is
/// absent exactly when no device matches.
pub proof fn lemma_first_match_pos(devs: Seq<DeviceDescriptor>, id: Seq<char>)
    ensures
        match first_match_pos(devs, id) {
            Some(p) => 0 <= p < devs.len() && device_matches(devs[p], id) && (forall|j: int|
                0 <= j < p ==> !device_matches(devs[j], id)),
            None => forall|j: int| 0 <= j < devs.len() ==> !device_matches(devs[j], id),
        },
    decreases devs.len(),
{
    if devs.len() == 0 {
    } else if device_matches(devs[0], id) {
    } else {
        lemma_first_match_pos(devs.drop_first(), id);
        match first_match_pos(devs.drop_first(), id) {
            Some(p) => {
                assert(devs.drop_first()[p] == devs[p + 1]);
                assert forall|j: int| 0 <= j < p + 1 implies !device_matches(devs[j], id) by {
                    if j > 0 {
                        assert(devs.drop_first()[j - 1] == devs[j]);
                    }
                }
            },
            None => {
                assert forall|j: int| 0 <= j < devs.len() implies !device_matches(
                    devs[j],
                    id,
                ) by {
                    if j > 0 {
                        assert(devs.drop_first()[j - 1] == devs[j]);
                    }
                }
            },
        }
    }
}

/// The selection policy: the first matching device's own index; with no
/// match, DeviceNotFound in strict mode and the fallback index 0 otherwise.
pub open spec fn spec_select(devs: Seq<DeviceDescriptor>, id: Seq<char>, strict: bool) -> Result<
    usize,
    PipelineError,
> {
    match first_match_pos(devs, id) {
        Some(p) => Ok(devs[p].index),
        None => if strict {
            Err(PipelineError::DeviceNotFound)
        } else {
            Ok(0usize)
        },
    }
}

/// Scans the enumerated devices in order and applies the selection policy
/// for the configured identifier and strict-mode flag.
pub fn select(devices: &Vec<DeviceDescriptor>, camera_id: &str, no_default_camera: bool) -> (r:
    Result<usize, PipelineError>)
    ensures
        r == spec_select(devices@, camera_id@, no_default_camera),
{
    let lid = lowercase(camera_id);
    let mut i: usize = 0;
    while i < devices.len()
        invariant
            0 <= i <= devices@.len(),
            lid@ == lower_of(camera_id@),
            forall|j: int| 0 <= j < i ==> !device_matches(devices@[j], camera_id@),
        decreases devices@.len() - i,
    {
        let lm = lowercase(devices[i].misc.as_str());
        if contains_substr(lm.as_str(), lid.as_str()) {
            proof {
                assert(device_matches(devices@[i as int], camera_id@));
                lemma_first_match_pos(devices@, camera_id@);
                let fmp = first_match_pos(devices@, camera_id@);
                if fmp is None {
                    assert(!device_matches(devices@[i as int], camera_id@));
                } else {
                    let p = fmp->Some_0;
                    if p < i {
                        assert(!device_matches(devices@[p], camera_id@));
                    } else if p > i {
                        assert(!device_matches(devices@[i as int], camera_id@));
                    }
                }
            }
            return Ok(devices[i].index);
        }
        i += 1;
    }
    proof {
        lemma_first_match_pos(devices@, camera_id@);
        let fmp = first_match_pos(devices@, camera_id@);
        if fmp is Some {
            let p = fmp->Some_0;
            assert(!device_matches(devices@[p], camera_id@));
        }
    }
    if no_default_camera {
        Err(PipelineError::DeviceNotFound)
    } else {
        Ok(0)
    }
}

/// If exactly one enumerated device matches the identifier, selection
/// returns that device's index, in strict and in fallback mode alike.
pub proof fn lemma_select_unique_match(
    devs: Seq<DeviceDescriptor>,
    id: Seq<char>,
    k: int,
    strict: bool,
)
    requires
        0 <= k < devs.len(),
        device_matches(devs[k], id),
        forall|j: int| 0 <= j < devs.len() && j != k ==> !device_matches(devs[j], id),
    ensures
        spec_select(devs, id, strict) == Ok::<usize, PipelineError>(devs[k].index),
{
    lemma_first_match_pos(devs, id);
    let fmp = first_match_pos(devs, id);
    if fmp is None {
        assert(!device_matches(devs[k], id));
    } else {
        let p = fmp->Some_0;
        if p != k {
            assert(!device_matches(devs[p], id));
        }
    }
}

/// With no matching device and strict mode on, selection fails with
/// DeviceNotFound; the caller performs no further pipeline stage.
pub proof fn lemma_select_no_match_strict(devs: Seq<DeviceDescriptor>, id: Seq<char>)
    requires
        forall|j: int| 0 <= j < devs.len() ==> !device_matches(devs[j], id),
    ensures
        spec_select(devs, id, true) == Err::<usize, PipelineError>(PipelineError::DeviceNotFound),
{
    lemma_first_match_pos(devs, id);
    let fmp = first_match_pos(devs, id);
    if fmp is Some {
        let p = fmp->Some_0;
        assert(!device_matches(devs[p], id));
    }
}

/// With no matching device and strict mode off, selection falls back to
/// index 0, even when no device was enumerated at all.
pub proof fn lemma_select_no_match_fallback(devs: Seq<DeviceDescriptor>, id: Seq<char>)
    requires
        forall|j: int| 0 <= j < devs.len() ==> !device_matches(devs[j], id),
    ensures
        spec_select(devs, id, false) == Ok::<usize, PipelineError>(0usize),
{
    lemma_first_match_pos(devs, id);
    let fmp = first_match_pos(devs, id);
    if fmp is Some {
        let p = fmp->Some_0;
        assert(!device_matches(devs[p], id));
    }
}

} // verus!
