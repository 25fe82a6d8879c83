//! The health-monitored merge of two Windows PE programs, and the loader it generates.

use vstd::prelude::*;
use vstd::string::StringExecFns;
use crate::merger::error::MergeError;
use crate::merger::orchestrator::{MergeRun, RunView};
use crate::merger::{begin_merge, preflight};
use crate::policy::{MergeMode, MergePolicy};
use crate::text::{
    decimal,
    lemma_decimal_reads_back,
    lemma_digits_end_where_they_end,
    lemma_joins_regroup,
    lemma_same_prefix_same_rest,
    render_decimal,
};

verus! {

/// The loader's source up to the value of the grace period.
pub const LOADER_OPENING: &'static str = r#"
#include <windows.h>
#include <stdio.h>
#include <time.h>

// Configuration (baked at compile time)
#define GRACE_PERIOD_SECONDS "#;

/// What introduces the flag for synchronous startup, on the line after the grace period.
pub const SYNC_FLAG_DEFINE: &'static str = "#define SYNC_MODE ";

/// What introduces the failure threshold, on the line after the flag.
pub const FAILURE_COUNT_DEFINE: &'static str = "#define NETWORK_FAILURE_KILL_COUNT ";

/// The loader's source from the line after the failure threshold on: the supervisor
/// itself.
pub const LOADER_BODY: &'static str = r#"#define HEALTH_CHECK_INTERVAL 5  // Check health every 5 seconds (in seconds)

// External symbols for embedded binaries
// Note: objcopy generates symbols based on the input filename. 
// Since we are linking against .exe files (e.g., base.exe), the generated symbols include '_exe_' in their names.
extern char _binary_base_exe_start[];
extern char _binary_base_exe_end[];
extern char _binary_overload_exe_start[];
extern char _binary_overload_exe_end[];

// Shared memory health status
typedef struct {
    time_t last_success;           // Timestamp of last successful check
    int consecutive_failures;       // Counter of network failures
    int is_alive;                   // Heartbeat flag (1=alive, 0=dead)
    int should_kill_base;           // Signal from overload to kill base
    int parent_requests_kill;       // Signal from parent: kill yourself now
} HealthStatus;

static HANDLE overload_process = NULL;
static HANDLE base_process = NULL;
static DWORD overload_pid = 0;
static DWORD base_pid = 0;
static HealthStatus* health_status = NULL;
static HANDLE health_shm_handle = NULL;
static HANDLE monitor_thread = NULL;
static volatile int health_check_running = 1;

// Monitor thread that checks overload health
static DWORD WINAPI health_monitor_thread(LPVOID arg) {
    fprintf(stderr, "[KillCode] Health monitor started (grace_period=%ds, failure_threshold=%d)\n",
            GRACE_PERIOD_SECONDS, NETWORK_FAILURE_KILL_COUNT);
    
    // The monitor is started once the base runs, so base_process is set by now
    while (health_check_running && base_process != NULL) {
        Sleep(HEALTH_CHECK_INTERVAL * 1000);
        
        if (!health_status) continue;
        
        time_t now = time(NULL);
        time_t time_since_success = now - health_status->last_success;
        
        // Check 1: Grace period exceeded
        if (GRACE_PERIOD_SECONDS > 0 && time_since_success > GRACE_PERIOD_SECONDS) {
            fprintf(stderr, "[KillCode] ⚠️  Grace period exceeded (%lld > %d seconds), killing base\n",
                    (long long)time_since_success, GRACE_PERIOD_SECONDS);
            TerminateProcess(base_process, 1);
            break;
        }
        
        // Check 2: Network failure threshold exceeded
        if (NETWORK_FAILURE_KILL_COUNT > 0 && 
            health_status->consecutive_failures >= NETWORK_FAILURE_KILL_COUNT) {
            fprintf(stderr, "[KillCode] ⚠️  Network failure threshold exceeded (%d/%d), signaling overload to kill parent\n",
                    health_status->consecutive_failures, NETWORK_FAILURE_KILL_COUNT);
            
            // Signal overload to execute kill method on parent
            health_status->parent_requests_kill = 1;
            
            // Wait a moment for overload to execute kill
            Sleep(1000);
            
            // Fallback: if still alive, kill base directly
            fprintf(stderr, "[KillCode] Fallback: Killing base directly\n");
            TerminateProcess(base_process, 1);
            break;
        }
        
        // Check 3: Overload requested base kill
        if (health_status->should_kill_base) {
            fprintf(stderr, "[KillCode] ⚠️  Overload requested base termination\n");
            TerminateProcess(base_process, 1);
            break;
        }
        
        // Check 4: Overload is not alive (crashed/hung)
        if (health_status->is_alive == 0) {
            fprintf(stderr, "[KillCode] ⚠️  Overload heartbeat lost, killing base\n");
            TerminateProcess(base_process, 1);
            break;
        }
    }
    
    return 0;
}

// Delete a binary that was extracted to the temp directory
static void delete_extracted(const char* name) {
    char temp_path[MAX_PATH];
    char temp_dir[MAX_PATH];
    
    GetTempPathA(MAX_PATH, temp_dir);
    sprintf(temp_path, "%s\\%s.exe", temp_dir, name);
    DeleteFileA(temp_path);
}

// Stop the overload if it is still there, join the monitor if it was started,
// then release the shared memory and delete what was extracted
static void clean_up(void) {
    if (overload_process != NULL) {
        fprintf(stderr, "[KillCode] Terminating overload (PID: %lu)\n", overload_pid);
        TerminateProcess(overload_process, 0);
        CloseHandle(overload_process);
        overload_process = NULL;
    }
    
    health_check_running = 0;
    if (monitor_thread != NULL) {
        WaitForSingleObject(monitor_thread, INFINITE);
        CloseHandle(monitor_thread);
        monitor_thread = NULL;
    }
    if (base_process != NULL) {
        CloseHandle(base_process);
        base_process = NULL;
    }
    
    if (health_status != NULL) {
        UnmapViewOfFile(health_status);
        health_status = NULL;
    }
    if (health_shm_handle != NULL) {
        CloseHandle(health_shm_handle);
        health_shm_handle = NULL;
    }
    
    delete_extracted("overload");
    delete_extracted("base");
}

static int execute_binary(char* binary_data, size_t binary_size, const char* name, int is_base) {
    char temp_path[MAX_PATH];
    char temp_dir[MAX_PATH];
    
    GetTempPathA(MAX_PATH, temp_dir);
    sprintf(temp_path, "%s\\%s.exe", temp_dir, name);
    
    // Write binary to temp file
    HANDLE hFile = CreateFileA(temp_path, GENERIC_WRITE, 0, NULL, CREATE_ALWAYS, FILE_ATTRIBUTE_NORMAL, NULL);
    if (hFile == INVALID_HANDLE_VALUE) {
        fprintf(stderr, "Failed to create temp file: %s\n", temp_path);
        return -1;
    }
    
    DWORD written;
    if (!WriteFile(hFile, binary_data, binary_size, &written, NULL) || written != binary_size) {
        fprintf(stderr, "Failed to write binary data\n");
        CloseHandle(hFile);
        return -1;
    }
    CloseHandle(hFile);
    
    // Execute the binary
    STARTUPINFOA si = {0};
    PROCESS_INFORMATION pi = {0};
    si.cb = sizeof(si);
    
    if (!CreateProcessA(temp_path, NULL, NULL, NULL, FALSE, 0, NULL, NULL, &si, &pi)) {
        fprintf(stderr, "Failed to execute: %s\n", temp_path);
        return -1;
    }
    
    if (!is_base) {
        // This is the overload process
        overload_process = pi.hProcess;
        overload_pid = pi.dwProcessId;
        CloseHandle(pi.hThread);
        
        if (SYNC_MODE) {
            // Sync mode: Wait for overload to complete verification
            fprintf(stderr, "[KillCode] Sync mode: Waiting for overload verification (PID: %lu)...\n", overload_pid);
            WaitForSingleObject(pi.hProcess, INFINITE);
            
            DWORD exit_code;
            GetExitCodeProcess(pi.hProcess, &exit_code);
            
            // The overload has run to its end: nothing is left to terminate
            CloseHandle(overload_process);
            overload_process = NULL;
            
            if (exit_code != 0) {
                fprintf(stderr, "[KillCode] Overload verification failed (exit code: %d)\n", (int)exit_code);
                return 1;
            }
            fprintf(stderr, "[KillCode] Overload verification successful\n");
        } else {
            // Async mode: Overload runs in background
            fprintf(stderr, "[KillCode] Async mode: Overload running in background (PID: %lu)\n", overload_pid);
        }
        
        return 0;
    } else {
        // This is the base process
        base_process = pi.hProcess;
        base_pid = pi.dwProcessId;
        CloseHandle(pi.hThread);
        
        // The base runs: in async mode with a health record, watch it from now on
        if (!SYNC_MODE && health_status) {
            monitor_thread = CreateThread(NULL, 0, health_monitor_thread, NULL, 0, NULL);
            if (monitor_thread == NULL) {
                fprintf(stderr, "[KillCode] Warning: Failed to create health monitor thread\n");
            }
        }
        
        WaitForSingleObject(pi.hProcess, INFINITE);
        
        DWORD exit_code;
        GetExitCodeProcess(pi.hProcess, &exit_code);
        
        return exit_code;
    }
}

int main(int argc, char** argv) {
    size_t base_size = _binary_base_exe_end - _binary_base_exe_start;
    size_t overload_size = _binary_overload_exe_end - _binary_overload_exe_start;
    
    fprintf(stderr, "[KillCode] V2 Binary execution starting\n");
    fprintf(stderr, "[KillCode] Base: %zu bytes, Overload: %zu bytes\n", base_size, overload_size);
    fprintf(stderr, "[KillCode] Config: sync=%d, grace_period=%ds, failure_threshold=%d\n",
            SYNC_MODE, GRACE_PERIOD_SECONDS, NETWORK_FAILURE_KILL_COUNT);
    
    // Create shared memory for health monitoring (always in async mode)
    if (!SYNC_MODE) {
        char shm_name[64];
        sprintf(shm_name, "Local\\OverloadHealth_%lu", GetCurrentProcessId());
        
        health_shm_handle = CreateFileMappingA(
            INVALID_HANDLE_VALUE,
            NULL,
            PAGE_READWRITE,
            0,
            sizeof(HealthStatus),
            shm_name
        );
        
        if (health_shm_handle != NULL) {
            health_status = (HealthStatus*)MapViewOfFile(
                health_shm_handle,
                FILE_MAP_ALL_ACCESS,
                0,
                0,
                sizeof(HealthStatus)
            );
        }
        
        if (health_status != NULL) {
            // Initialize health status
            memset(health_status, 0, sizeof(HealthStatus));
            health_status->last_success = time(NULL);
            health_status->is_alive = 1;
            
            // Pass shared memory name to overload via env var
            SetEnvironmentVariableA("KILLCODE_HEALTH_SHM", shm_name);
            
            fprintf(stderr, "[KillCode] Health monitoring enabled: %s\n", shm_name);
        } else {
            fprintf(stderr, "[KillCode] Warning: Failed to create shared memory\n");
        }
    }
    
    // Start overload; in sync mode this waits for its verification
    int overload_start = execute_binary(_binary_overload_exe_start, overload_size, "overload", 0);
    if (overload_start != 0) {
        if (overload_start < 0) {
            fprintf(stderr, "[KillCode] Failed to start overload binary\n");
        }
        clean_up();
        return 1;
    }
    
    // Execute base binary; the monitor is started beside it once it runs
    fprintf(stderr, "[KillCode] Starting base binary...\n");
    int base_exit = execute_binary(_binary_base_exe_start, base_size, "base", 1);
    if (base_process == NULL) {
        fprintf(stderr, "[KillCode] Failed to start base binary\n");
    }
    
    // The base has exited or was never started: the overload does not outlive it
    clean_up();
    
    fprintf(stderr, "[KillCode] Base binary exited with code: %d\n", base_exit);
    
    return base_exit;
}
"#;

/// The flag for synchronous startup as the loader's source holds it.
pub open spec fn sync_flag_text(sync_mode: bool) -> Seq<char> {
    if sync_mode {
        seq!['1']
    } else {
        seq!['0']
    }
}

/// The end of a line.
pub open spec fn line_break() -> Seq<char> {
    seq!['\n']
}

/// The source of the health-monitoring loader for the given knobs: the fixed text with
/// the three values set in, each at the end of the line that defines it, the numbers in
/// decimal notation.
pub open spec fn loader_v2_text(
    grace_period: u32,
    sync_mode: bool,
    network_failure_kill_count: u32,
) -> Seq<char> {
    LOADER_OPENING@ + decimal(grace_period as nat) + line_break() + SYNC_FLAG_DEFINE@
        + sync_flag_text(sync_mode) + line_break() + FAILURE_COUNT_DEFINE@ + decimal(
        network_failure_kill_count as nat,
    ) + line_break() + LOADER_BODY@
}

/// Generates the source of the loader that supervises base and overload with health
/// monitoring. The knobs become constants of the source, so the artifact built from it
/// cannot be reconfigured. The text depends on the three values and on nothing else.
pub fn generate_windows_loader_v2(
    grace_period: u32,
    sync_mode: bool,
    network_failure_kill_count: u32,
) -> (source: String)
    ensures
        source@ == loader_v2_text(grace_period, sync_mode, network_failure_kill_count),
{
    proof {
        reveal_strlit("\n");
        reveal_strlit("1");
        reveal_strlit("0");
    }
    assert("\n"@ =~= line_break());
    let mut source = String::from_str(LOADER_OPENING);
    let grace = render_decimal(grace_period);
    source.append(grace.as_str());
    source.append("\n");
    source.append(SYNC_FLAG_DEFINE);
    if sync_mode {
        source.append("1");
        assert("1"@ =~= sync_flag_text(sync_mode));
    } else {
        source.append("0");
        assert("0"@ =~= sync_flag_text(sync_mode));
    }
    source.append("\n");
    source.append(FAILURE_COUNT_DEFINE);
    let count = render_decimal(network_failure_kill_count);
    source.append(count.as_str());
    source.append("\n");
    source.append(LOADER_BODY);
    source
}

/// The source from the failure threshold's value on.
spec fn from_count(network_failure_kill_count: u32) -> Seq<char> {
    decimal(network_failure_kill_count as nat) + (line_break() + LOADER_BODY@)
}

/// The source from the flag's value on.
spec fn from_flag(sync_mode: bool, network_failure_kill_count: u32) -> Seq<char> {
    sync_flag_text(sync_mode) + (line_break() + (FAILURE_COUNT_DEFINE@ + from_count(
        network_failure_kill_count,
    )))
}

/// The source from the grace period's value on.
spec fn from_grace(grace_period: u32, sync_mode: bool, network_failure_kill_count: u32) -> Seq<
    char,
> {
    decimal(grace_period as nat) + (line_break() + (SYNC_FLAG_DEFINE@ + from_flag(
        sync_mode,
        network_failure_kill_count,
    )))
}

proof fn lemma_text_from_grace(grace_period: u32, sync_mode: bool, network_failure_kill_count: u32)
    ensures
        loader_v2_text(grace_period, sync_mode, network_failure_kill_count) == LOADER_OPENING@
            + from_grace(grace_period, sync_mode, network_failure_kill_count),
{
    let opening = LOADER_OPENING@;
    let grace = decimal(grace_period as nat);
    let flag = sync_flag_text(sync_mode);
    let count = decimal(network_failure_kill_count as nat);
    let upto_grace = opening + grace;
    let upto_flag_line = upto_grace + line_break();
    let upto_flag_define = upto_flag_line + SYNC_FLAG_DEFINE@;
    let upto_flag = upto_flag_define + flag;
    let upto_count_line = upto_flag + line_break();
    let upto_count_define = upto_count_line + FAILURE_COUNT_DEFINE@;
    let upto_count = upto_count_define + count;
    let after_count = line_break() + LOADER_BODY@;
    lemma_joins_regroup(upto_count, line_break(), LOADER_BODY@);
    lemma_joins_regroup(upto_count_define, count, after_count);
    let tail_count = from_count(network_failure_kill_count);
    lemma_joins_regroup(upto_count_line, FAILURE_COUNT_DEFINE@, tail_count);
    let tail_define = FAILURE_COUNT_DEFINE@ + tail_count;
    lemma_joins_regroup(upto_flag, line_break(), tail_define);
    let tail_line = line_break() + tail_define;
    lemma_joins_regroup(upto_flag_define, flag, tail_line);
    let tail_flag = from_flag(sync_mode, network_failure_kill_count);
    lemma_joins_regroup(upto_flag_line, SYNC_FLAG_DEFINE@, tail_flag);
    let tail_flag_define = SYNC_FLAG_DEFINE@ + tail_flag;
    lemma_joins_regroup(upto_grace, line_break(), tail_flag_define);
    let tail_flag_line = line_break() + tail_flag_define;
    lemma_joins_regroup(opening, grace, tail_flag_line);
}

/// The loader's source tells its knobs: two sources are the same text only if they were
/// generated for the same three values. An artifact embodies one policy and no other.
pub proof fn lemma_loader_tells_its_knobs(
    grace_period: u32,
    sync_mode: bool,
    network_failure_kill_count: u32,
    other_grace_period: u32,
    other_sync_mode: bool,
    other_network_failure_kill_count: u32,
)
    requires
        loader_v2_text(grace_period, sync_mode, network_failure_kill_count) == loader_v2_text(
            other_grace_period,
            other_sync_mode,
            other_network_failure_kill_count,
        ),
    ensures
        grace_period == other_grace_period,
        sync_mode == other_sync_mode,
        network_failure_kill_count == other_network_failure_kill_count,
{
    let (g1, s1, c1) = (grace_period, sync_mode, network_failure_kill_count);
    let (g2, s2, c2) = (other_grace_period, other_sync_mode, other_network_failure_kill_count);
    lemma_text_from_grace(g1, s1, c1);
    lemma_text_from_grace(g2, s2, c2);
    lemma_same_prefix_same_rest(LOADER_OPENING@, from_grace(g1, s1, c1), from_grace(g2, s2, c2));

    lemma_decimal_reads_back(g1 as nat);
    lemma_decimal_reads_back(g2 as nat);
    let after_grace_1 = line_break() + (SYNC_FLAG_DEFINE@ + from_flag(s1, c1));
    let after_grace_2 = line_break() + (SYNC_FLAG_DEFINE@ + from_flag(s2, c2));
    assert(after_grace_1[0] == '\n' && after_grace_2[0] == '\n');
    lemma_digits_end_where_they_end(
        decimal(g1 as nat),
        decimal(g2 as nat),
        after_grace_1,
        after_grace_2,
    );
    assert(g1 == g2);

    lemma_same_prefix_same_rest(
        line_break(),
        SYNC_FLAG_DEFINE@ + from_flag(s1, c1),
        SYNC_FLAG_DEFINE@ + from_flag(s2, c2),
    );
    lemma_same_prefix_same_rest(SYNC_FLAG_DEFINE@, from_flag(s1, c1), from_flag(s2, c2));
    assert(from_flag(s1, c1)[0] == sync_flag_text(s1)[0]);
    assert(from_flag(s2, c2)[0] == sync_flag_text(s2)[0]);
    assert(s1 == s2);

    lemma_same_prefix_same_rest(
        sync_flag_text(s1),
        line_break() + (FAILURE_COUNT_DEFINE@ + from_count(c1)),
        line_break() + (FAILURE_COUNT_DEFINE@ + from_count(c2)),
    );
    lemma_same_prefix_same_rest(
        line_break(),
        FAILURE_COUNT_DEFINE@ + from_count(c1),
        FAILURE_COUNT_DEFINE@ + from_count(c2),
    );
    lemma_same_prefix_same_rest(FAILURE_COUNT_DEFINE@, from_count(c1), from_count(c2));

    lemma_decimal_reads_back(c1 as nat);
    lemma_decimal_reads_back(c2 as nat);
    let after_count = line_break() + LOADER_BODY@;
    assert(after_count[0] == '\n');
    lemma_digits_end_where_they_end(
        decimal(c1 as nat),
        decimal(c2 as nat),
        after_count,
        after_count,
    );
    assert(c1 == c2);
}

/// Begins the merge of two Windows PE programs into an artifact with health monitoring.
///
/// An empty payload is turned down here, before any step is handed out. Otherwise the
/// run starts at the first step of the health-monitored plan: the caller performs the
/// pending step in its scratch directory, reports the outcome to `advance`, and finds the
/// artifact under `artifact` once the run is finished.
pub fn merge_windows_pe_v2_stop_on_exit(
    base_data: &[u8],
    overload_data: &[u8],
    grace_period: u32,
    sync_mode: bool,
    network_failure_kill_count: u32,
) -> (run: Result<MergeRun, MergeError>)
    ensures
        match preflight(base_data@, overload_data@) {
            Some(error) => run matches Err(raised) && raised@ == error,
            None => run matches Ok(begun) && begun@ == RunView::initial(
                MergePolicy {
                    mode: MergeMode::HealthMonitored,
                    sync_mode,
                    grace_period_seconds: grace_period,
                    network_failure_kill_count,
                },
            ),
        },
{
    begin_merge(
        base_data,
        overload_data,
        MergePolicy::health_monitored(grace_period, sync_mode, network_failure_kill_count),
    )
}

} // verus!
