//! The build-time pipeline that turns two payloads into one artifact.

use vstd::prelude::*;
use crate::merger::error::{MergeError, MergeErrorView};
use crate::merger::orchestrator::{MergeRun, RunView};
use crate::merger::windows::merge_windows_pe;
use crate::models::binary::{CapabilityTable, Platform};
use crate::policy::{MergePolicy, PayloadRole};

pub mod error;
pub mod orchestrator;
pub mod toolchain;
pub mod windows;

verus! {

/// What is wrong with a pair of payloads before any work is done on them: a merge takes
/// one base and one overload, and neither may be empty. The base is looked at first.
pub open spec fn preflight(base: Seq<u8>, overload: Seq<u8>) -> Option<MergeErrorView> {
    if base.len() == 0 {
        Some(MergeErrorView::EmptyPayload { role: PayloadRole::Base })
    } else if overload.len() == 0 {
        Some(MergeErrorView::EmptyPayload { role: PayloadRole::Overload })
    } else {
        None
    }
}

/// Checks the payloads and, if both hold bytes, starts a run under `policy`.
pub(crate) fn begin_merge(base_data: &[u8], overload_data: &[u8], policy: MergePolicy) -> (run:
    Result<MergeRun, MergeError>)
    ensures
        match preflight(base_data@, overload_data@) {
            Some(error) => run matches Err(raised) && raised@ == error,
            None => run matches Ok(begun) && begun@ == RunView::initial(policy),
        },
{
    if base_data.len() == 0 {
        Err(MergeError::EmptyPayload { role: PayloadRole::Base })
    } else if overload_data.len() == 0 {
        Err(MergeError::EmptyPayload { role: PayloadRole::Overload })
    } else {
        Ok(MergeRun::begin(policy))
    }
}

/// Fails fast for a platform that the table does not hold as supported, with an error
/// that names the platform.
pub fn ensure_supported(platform: Platform, table: &CapabilityTable) -> (checked: Result<
    (),
    MergeError,
>)
    ensures
        checked is Ok <==> table.supports_platform(platform),
        checked matches Err(raised) ==> raised@ == (MergeErrorView::UnsupportedPlatform {
            platform,
        }),
        platform == Platform::UNKNOWN ==> checked is Err,
{
    if table.supports(platform) {
        Ok(())
    } else {
        Err(MergeError::UnsupportedPlatform { platform })
    }
}

/// What keeps a merge from beginning: a target platform without a merge strategy, which
/// is looked at first, or an empty payload.
pub open spec fn refusal(platform: Platform, base: Seq<u8>, overload: Seq<u8>) -> Option<
    MergeErrorView,
> {
    if !CapabilityTable::implemented_table().supports_platform(platform) {
        Some(MergeErrorView::UnsupportedPlatform { platform })
    } else {
        preflight(base, overload)
    }
}

/// Begins the merge of two payloads for a target platform under `policy`. A platform
/// without a merge strategy is turned down by name and an empty payload by its role,
/// both before any step is handed out; otherwise the run starts at the first step of
/// the plan for the policy's mode.
pub fn merge(
    base_data: &[u8],
    overload_data: &[u8],
    target_platform: Platform,
    policy: MergePolicy,
) -> (run: Result<MergeRun, MergeError>)
    ensures
        match refusal(target_platform, base_data@, overload_data@) {
            Some(error) => run matches Err(raised) && raised@ == error,
            None => run matches Ok(begun) && begun@ == RunView::initial(policy),
        },
        run is Ok ==> target_platform == Platform::WINDOWS_PE,
{
    match ensure_supported(target_platform, &CapabilityTable::implemented()) {
        Err(error) => Err(error),
        Ok(()) => merge_windows_pe(base_data, overload_data, policy),
    }
}

} // verus!
