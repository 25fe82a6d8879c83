//! The stop-on-exit merge of two Windows PE programs, and its loader.

use vstd::prelude::*;
use vstd::string::StringExecFns;
use crate::merger::error::MergeError;
use crate::merger::orchestrator::{MergeRun, RunView};
use crate::merger::{begin_merge, preflight};
use crate::policy::{MergeMode, MergePolicy};

verus! {

/// The source of the loader that starts the overload, runs the base to its end and then
/// stops the overload.
pub const LOADER_STUB: &'static str = r#"
#include <windows.h>
#include <stdio.h>

// External symbols for embedded binaries
// Note: objcopy generates symbols based on the input filename. 
// Since we are linking against .exe files (e.g., base.exe), the generated symbols include '_exe_' in their names.
extern char _binary_base_exe_start[];
extern char _binary_base_exe_end[];
extern char _binary_overload_exe_start[];
extern char _binary_overload_exe_end[];

static HANDLE overload_process = NULL;
static DWORD overload_pid = 0;

// Delete a binary that was extracted to the temp directory
static void delete_extracted(const char* name) {
    char temp_path[MAX_PATH];
    char temp_dir[MAX_PATH];
    
    GetTempPathA(MAX_PATH, temp_dir);
    sprintf(temp_path, "%s\\%s.exe", temp_dir, name);
    DeleteFileA(temp_path);
}

static int base_started = 0;

static int execute_binary(char* binary_data, size_t binary_size, const char* name, int is_base) {
    // Create a temporary file
    char temp_path[MAX_PATH];
    char temp_dir[MAX_PATH];
    
    GetTempPathA(MAX_PATH, temp_dir);
    sprintf(temp_path, "%s\\%s.exe", temp_dir, name);
    
    // Write binary to temp file
    HANDLE hFile = CreateFileA(temp_path, GENERIC_WRITE, 0, NULL, CREATE_ALWAYS, FILE_ATTRIBUTE_NORMAL, NULL);
    if (hFile == INVALID_HANDLE_VALUE) {
        fprintf(stderr, "Failed to create temp file: %s\n", temp_path);
        return -1;
    }
    
    DWORD written;
    if (!WriteFile(hFile, binary_data, binary_size, &written, NULL) || written != binary_size) {
        fprintf(stderr, "Failed to write binary data\n");
        CloseHandle(hFile);
        return -1;
    }
    CloseHandle(hFile);
    
    // Execute the binary
    STARTUPINFOA si = {0};
    PROCESS_INFORMATION pi = {0};
    si.cb = sizeof(si);
    
    if (!CreateProcessA(temp_path, NULL, NULL, NULL, FALSE, 0, NULL, NULL, &si, &pi)) {
        fprintf(stderr, "Failed to execute: %s\n", temp_path);
        return -1;
    }
    
    if (!is_base) {
        // This is the overload process - store handle and PID
        overload_process = pi.hProcess;
        overload_pid = pi.dwProcessId;
        CloseHandle(pi.hThread); // We don't need the thread handle
        
        // Don't delete file yet, it's running
        return 0;
    } else {
        // This is the base process - wait for it to complete
        base_started = 1;
        WaitForSingleObject(pi.hProcess, INFINITE);
        
        DWORD exit_code;
        GetExitCodeProcess(pi.hProcess, &exit_code);
        
        CloseHandle(pi.hProcess);
        CloseHandle(pi.hThread);
        
        return exit_code;
    }
}

int main(int argc, char** argv) {
    size_t base_size = _binary_base_exe_end - _binary_base_exe_start;
    size_t overload_size = _binary_overload_exe_end - _binary_overload_exe_start;
    
    // Start overload first (non-blocking)
    if (execute_binary(_binary_overload_exe_start, overload_size, "overload", 0) != 0) {
        fprintf(stderr, "[KillCode] Failed to start overload binary\n");
        delete_extracted("overload");
        return 1;
    }
    
    // Execute base and wait for completion
    int base_exit = execute_binary(_binary_base_exe_start, base_size, "base", 1);
    if (!base_started) {
        fprintf(stderr, "[KillCode] Failed to start base binary\n");
    }
    
    // The base has exited or was never started: the overload does not outlive it
    if (overload_process != NULL) {
        fprintf(stderr, "[KillCode] Terminating overload process (PID: %lu)\n", overload_pid);
        TerminateProcess(overload_process, 0);
        CloseHandle(overload_process);
        overload_process = NULL;
    }
    
    // Clean up what was extracted
    delete_extracted("overload");
    delete_extracted("base");
    
    return base_exit;
}
"#;

/// The loader of a stop-on-exit artifact. It has no knobs: the text is always the same.
pub fn loader_stub() -> (source: String)
    ensures
        source@ == LOADER_STUB@,
{
    String::from_str(LOADER_STUB)
}

/// Begins the merge of two Windows PE programs into an artifact that stops the overload
/// when the base exits.
///
/// An empty payload is turned down here, before any step is handed out. Otherwise the
/// run starts at the first step of the stop-on-exit plan: the caller performs the pending
/// step in its scratch directory, reports the outcome to `advance`, and finds the artifact
/// under `artifact` once the run is finished.
pub fn merge_windows_pe_stop_on_exit(base_data: &[u8], overload_data: &[u8]) -> (run: Result<
    MergeRun,
    MergeError,
>)
    ensures
        match preflight(base_data@, overload_data@) {
            Some(error) => run matches Err(raised) && raised@ == error,
            None => run matches Ok(begun) && begun@ == RunView::initial(
                MergePolicy {
                    mode: MergeMode::StopOnExit,
                    sync_mode: false,
                    grace_period_seconds: 0,
                    network_failure_kill_count: 0,
                },
            ),
        },
{
    begin_merge(base_data, overload_data, MergePolicy::stop_on_exit())
}

} // verus!
