//! Merging for Windows PE payloads, built with the MinGW cross toolchain.

use vstd::prelude::*;
use vstd::slice::slice_to_vec;
use vstd::string::{StrSliceExecFns, StringSliceAdditionalSpecFns};
use vstd::utf8::encode_utf8;
use crate::merger::toolchain::StagedFile;
use crate::merger::begin_merge;
use crate::merger::error::MergeError;
use crate::merger::orchestrator::{MergeRun, RunView};
use crate::merger::preflight;
use crate::merger::windows::stop_on_exit::{loader_stub, LOADER_STUB};
use crate::merger::windows::v2_stop_on_exit::{generate_windows_loader_v2, loader_v2_text};
use crate::policy::{MergeMode, MergePolicy};

pub mod stop_on_exit;
pub mod v2_stop_on_exit;

verus! {

/// The loader's source for a policy. It is a function of the policy alone: the same
/// policy always gives the same text, character for character.
pub open spec fn loader_source_text(policy: MergePolicy) -> Seq<char> {
    match policy.mode {
        MergeMode::StopOnExit => LOADER_STUB@,
        MergeMode::HealthMonitored => loader_v2_text(
            policy.grace_period_seconds,
            policy.sync_mode,
            policy.network_failure_kill_count,
        ),
    }
}

/// Generates the source of the loader that embodies `policy`.
pub fn generate_loader_source(policy: MergePolicy) -> (source: String)
    ensures
        source@ == loader_source_text(policy),
{
    match policy.mode {
        MergeMode::StopOnExit => loader_stub(),
        MergeMode::HealthMonitored => generate_windows_loader_v2(
            policy.grace_period_seconds,
            policy.sync_mode,
            policy.network_failure_kill_count,
        ),
    }
}

/// The bytes that a staged file is to hold: each payload goes to its own file as it is,
/// and a loader file holds the loader's source in UTF-8. The stub has no knobs; the
/// generated loader takes them from `policy`.
pub open spec fn staged_content(
    policy: MergePolicy,
    file: StagedFile,
    base: Seq<u8>,
    overload: Seq<u8>,
) -> Seq<u8> {
    match file {
        StagedFile::BasePayload => base,
        StagedFile::OverloadPayload => overload,
        StagedFile::LoaderStub => encode_utf8(LOADER_STUB@),
        StagedFile::Loader => encode_utf8(
            loader_v2_text(
                policy.grace_period_seconds,
                policy.sync_mode,
                policy.network_failure_kill_count,
            ),
        ),
    }
}

/// The bytes to write into a staged file.
pub fn staged_bytes(
    policy: MergePolicy,
    file: StagedFile,
    base_data: &[u8],
    overload_data: &[u8],
) -> (bytes: Vec<u8>)
    ensures
        bytes@ == staged_content(policy, file, base_data@, overload_data@),
{
    match file {
        StagedFile::BasePayload => slice_to_vec(base_data),
        StagedFile::OverloadPayload => slice_to_vec(overload_data),
        StagedFile::LoaderStub => {
            let source = loader_stub();
            source.as_str().as_bytes_vec()
        },
        StagedFile::Loader => {
            let source = generate_windows_loader_v2(
                policy.grace_period_seconds,
                policy.sync_mode,
                policy.network_failure_kill_count,
            );
            source.as_str().as_bytes_vec()
        },
    }
}

/// The loader file that a plan stages holds the source of the loader that embodies the
/// plan's policy.
pub proof fn lemma_staged_loader_embodies_policy(
    policy: MergePolicy,
    base: Seq<u8>,
    overload: Seq<u8>,
)
    ensures
        policy.mode == MergeMode::StopOnExit ==> staged_content(
            policy,
            StagedFile::LoaderStub,
            base,
            overload,
        ) == encode_utf8(loader_source_text(policy)),
        policy.mode == MergeMode::HealthMonitored ==> staged_content(
            policy,
            StagedFile::Loader,
            base,
            overload,
        ) == encode_utf8(loader_source_text(policy)),
{
}

/// Begins the merge of two Windows PE programs under `policy`, whatever its mode.
pub fn merge_windows_pe(base_data: &[u8], overload_data: &[u8], policy: MergePolicy) -> (run:
    Result<MergeRun, MergeError>)
    ensures
        match preflight(base_data@, overload_data@) {
            Some(error) => run matches Err(raised) && raised@ == error,
            None => run matches Ok(begun) && begun@ == RunView::initial(policy),
        },
{
    begin_merge(base_data, overload_data, policy)
}

} // verus!
