use binary_merger::merger::windows::generate_loader_source;
use binary_merger::merger::windows::stop_on_exit::{loader_stub, LOADER_STUB};
use binary_merger::merger::windows::v2_stop_on_exit::generate_windows_loader_v2;
use binary_merger::policy::{MergeMode, MergePolicy};
use binary_merger::text::render_decimal;

fn expected_v2(grace_period: u32, sync_mode: bool, network_failure_kill_count: u32) -> String {
    format!(r#"
#include <windows.h>
#include <stdio.h>
#include <time.h>

// Configuration (baked at compile time)
#define GRACE_PERIOD_SECONDS {grace_period}
#define SYNC_MODE {sync_mode_int}
#define NETWORK_FAILURE_KILL_COUNT {network_failure_kill_count}
#define HEALTH_CHECK_INTERVAL 5  // Check health every 5 seconds (in seconds)

// External symbols for embedded binaries
// Note: objcopy generates symbols based on the input filename. 
// Since we are linking against .exe files (e.g., base.exe), the generated symbols include '_exe_' in their names.
extern char _binary_base_exe_start[];
extern char _binary_base_exe_end[];
extern char _binary_overload_exe_start[];
extern char _binary_overload_exe_end[];

// Shared memory health status
typedef struct {{
    time_t last_success;           // Timestamp of last successful check
    int consecutive_failures;       // Counter of network failures
    int is_alive;                   // Heartbeat flag (1=alive, 0=dead)
    int should_kill_base;           // Signal from overload to kill base
    int parent_requests_kill;       // Signal from parent: kill yourself now
}} HealthStatus;

static HANDLE overload_process = NULL;
static HANDLE base_process = NULL;
static DWORD overload_pid = 0;
static DWORD base_pid = 0;
static HealthStatus* health_status = NULL;
static HANDLE health_shm_handle = NULL;
static HANDLE monitor_thread = NULL;
static volatile int health_check_running = 1;

// Monitor thread that checks overload health
static DWORD WINAPI health_monitor_thread(LPVOID arg) {{
    fprintf(stderr, "[KillCode] Health monitor started (grace_period=%ds, failure_threshold=%d)\n",
            GRACE_PERIOD_SECONDS, NETWORK_FAILURE_KILL_COUNT);
    
    // The monitor is started once the base runs, so base_process is set by now
    while (health_check_running && base_process != NULL) {{
        Sleep(HEALTH_CHECK_INTERVAL * 1000);
        
        if (!health_status) continue;
        
        time_t now = time(NULL);
        time_t time_since_success = now - health_status->last_success;
        
        // Check 1: Grace period exceeded
        if (GRACE_PERIOD_SECONDS > 0 && time_since_success > GRACE_PERIOD_SECONDS) {{
            fprintf(stderr, "[KillCode] ⚠️  Grace period exceeded (%lld > %d seconds), killing base\n",
                    (long long)time_since_success, GRACE_PERIOD_SECONDS);
            TerminateProcess(base_process, 1);
            break;
        }}
        
        // Check 2: Network failure threshold exceeded
        if (NETWORK_FAILURE_KILL_COUNT > 0 && 
            health_status->consecutive_failures >= NETWORK_FAILURE_KILL_COUNT) {{
            fprintf(stderr, "[KillCode] ⚠️  Network failure threshold exceeded (%d/%d), signaling overload to kill parent\n",
                    health_status->consecutive_failures, NETWORK_FAILURE_KILL_COUNT);
            
            // Signal overload to execute kill method on parent
            health_status->parent_requests_kill = 1;
            
            // Wait a moment for overload to execute kill
            Sleep(1000);
            
            // Fallback: if still alive, kill base directly
            fprintf(stderr, "[KillCode] Fallback: Killing base directly\n");
            TerminateProcess(base_process, 1);
            break;
        }}
        
        // Check 3: Overload requested base kill
        if (health_status->should_kill_base) {{
            fprintf(stderr, "[KillCode] ⚠️  Overload requested base termination\n");
            TerminateProcess(base_process, 1);
            break;
        }}
        
        // Check 4: Overload is not alive (crashed/hung)
        if (health_status->is_alive == 0) {{
            fprintf(stderr, "[KillCode] ⚠️  Overload heartbeat lost, killing base\n");
            TerminateProcess(base_process, 1);
            break;
        }}
    }}
    
    return 0;
}}

// Delete a binary that was extracted to the temp directory
static void delete_extracted(const char* name) {{
    char temp_path[MAX_PATH];
    char temp_dir[MAX_PATH];
    
    GetTempPathA(MAX_PATH, temp_dir);
    sprintf(temp_path, "%s\\%s.exe", temp_dir, name);
    DeleteFileA(temp_path);
}}

// Stop the overload if it is still there, join the monitor if it was started,
// then release the shared memory and delete what was extracted
static void clean_up(void) {{
    if (overload_process != NULL) {{
        fprintf(stderr, "[KillCode] Terminating overload (PID: %lu)\n", overload_pid);
        TerminateProcess(overload_process, 0);
        CloseHandle(overload_process);
        overload_process = NULL;
    }}
    
    health_check_running = 0;
    if (monitor_thread != NULL) {{
        WaitForSingleObject(monitor_thread, INFINITE);
        CloseHandle(monitor_thread);
        monitor_thread = NULL;
    }}
    if (base_process != NULL) {{
        CloseHandle(base_process);
        base_process = NULL;
    }}
    
    if (health_status != NULL) {{
        UnmapViewOfFile(health_status);
        health_status = NULL;
    }}
    if (health_shm_handle != NULL) {{
        CloseHandle(health_shm_handle);
        health_shm_handle = NULL;
    }}
    
    delete_extracted("overload");
    delete_extracted("base");
}}

static int execute_binary(char* binary_data, size_t binary_size, const char* name, int is_base) {{
    char temp_path[MAX_PATH];
    char temp_dir[MAX_PATH];
    
    GetTempPathA(MAX_PATH, temp_dir);
    sprintf(temp_path, "%s\\%s.exe", temp_dir, name);
    
    // Write binary to temp file
    HANDLE hFile = CreateFileA(temp_path, GENERIC_WRITE, 0, NULL, CREATE_ALWAYS, FILE_ATTRIBUTE_NORMAL, NULL);
    if (hFile == INVALID_HANDLE_VALUE) {{
        fprintf(stderr, "Failed to create temp file: %s\n", temp_path);
        return -1;
    }}
    
    DWORD written;
    if (!WriteFile(hFile, binary_data, binary_size, &written, NULL) || written != binary_size) {{
        fprintf(stderr, "Failed to write binary data\n");
        CloseHandle(hFile);
        return -1;
    }}
    CloseHandle(hFile);
    
    // Execute the binary
    STARTUPINFOA si = {{0}};
    PROCESS_INFORMATION pi = {{0}};
    si.cb = sizeof(si);
    
    if (!CreateProcessA(temp_path, NULL, NULL, NULL, FALSE, 0, NULL, NULL, &si, &pi)) {{
        fprintf(stderr, "Failed to execute: %s\n", temp_path);
        return -1;
    }}
    
    if (!is_base) {{
        // This is the overload process
        overload_process = pi.hProcess;
        overload_pid = pi.dwProcessId;
        CloseHandle(pi.hThread);
        
        if (SYNC_MODE) {{
            // Sync mode: Wait for overload to complete verification
            fprintf(stderr, "[KillCode] Sync mode: Waiting for overload verification (PID: %lu)...\n", overload_pid);
            WaitForSingleObject(pi.hProcess, INFINITE);
            
            DWORD exit_code;
            GetExitCodeProcess(pi.hProcess, &exit_code);
            
            // The overload has run to its end: nothing is left to terminate
            CloseHandle(overload_process);
            overload_process = NULL;
            
            if (exit_code != 0) {{
                fprintf(stderr, "[KillCode] Overload verification failed (exit code: %d)\n", (int)exit_code);
                return 1;
            }}
            fprintf(stderr, "[KillCode] Overload verification successful\n");
        }} else {{
            // Async mode: Overload runs in background
            fprintf(stderr, "[KillCode] Async mode: Overload running in background (PID: %lu)\n", overload_pid);
        }}
        
        return 0;
    }} else {{
        // This is the base process
        base_process = pi.hProcess;
        base_pid = pi.dwProcessId;
        CloseHandle(pi.hThread);
        
        // The base runs: in async mode with a health record, watch it from now on
        if (!SYNC_MODE && health_status) {{
            monitor_thread = CreateThread(NULL, 0, health_monitor_thread, NULL, 0, NULL);
            if (monitor_thread == NULL) {{
                fprintf(stderr, "[KillCode] Warning: Failed to create health monitor thread\n");
            }}
        }}
        
        WaitForSingleObject(pi.hProcess, INFINITE);
        
        DWORD exit_code;
        GetExitCodeProcess(pi.hProcess, &exit_code);
        
        return exit_code;
    }}
}}

int main(int argc, char** argv) {{
    size_t base_size = _binary_base_exe_end - _binary_base_exe_start;
    size_t overload_size = _binary_overload_exe_end - _binary_overload_exe_start;
    
    fprintf(stderr, "[KillCode] V2 Binary execution starting\n");
    fprintf(stderr, "[KillCode] Base: %zu bytes, Overload: %zu bytes\n", base_size, overload_size);
    fprintf(stderr, "[KillCode] Config: sync=%d, grace_period=%ds, failure_threshold=%d\n",
            SYNC_MODE, GRACE_PERIOD_SECONDS, NETWORK_FAILURE_KILL_COUNT);
    
    // Create shared memory for health monitoring (always in async mode)
    if (!SYNC_MODE) {{
        char shm_name[64];
        sprintf(shm_name, "Local\\OverloadHealth_%lu", GetCurrentProcessId());
        
        health_shm_handle = CreateFileMappingA(
            INVALID_HANDLE_VALUE,
            NULL,
            PAGE_READWRITE,
            0,
            sizeof(HealthStatus),
            shm_name
        );
        
        if (health_shm_handle != NULL) {{
            health_status = (HealthStatus*)MapViewOfFile(
                health_shm_handle,
                FILE_MAP_ALL_ACCESS,
                0,
                0,
                sizeof(HealthStatus)
            );
        }}
        
        if (health_status != NULL) {{
            // Initialize health status
            memset(health_status, 0, sizeof(HealthStatus));
            health_status->last_success = time(NULL);
            health_status->is_alive = 1;
            
            // Pass shared memory name to overload via env var
            SetEnvironmentVariableA("KILLCODE_HEALTH_SHM", shm_name);
            
            fprintf(stderr, "[KillCode] Health monitoring enabled: %s\n", shm_name);
        }} else {{
            fprintf(stderr, "[KillCode] Warning: Failed to create shared memory\n");
        }}
    }}
    
    // Start overload; in sync mode this waits for its verification
    int overload_start = execute_binary(_binary_overload_exe_start, overload_size, "overload", 0);
    if (overload_start != 0) {{
        if (overload_start < 0) {{
            fprintf(stderr, "[KillCode] Failed to start overload binary\n");
        }}
        clean_up();
        return 1;
    }}
    
    // Execute base binary; the monitor is started beside it once it runs
    fprintf(stderr, "[KillCode] Starting base binary...\n");
    int base_exit = execute_binary(_binary_base_exe_start, base_size, "base", 1);
    if (base_process == NULL) {{
        fprintf(stderr, "[KillCode] Failed to start base binary\n");
    }}
    
    // The base has exited or was never started: the overload does not outlive it
    clean_up();
    
    fprintf(stderr, "[KillCode] Base binary exited with code: %d\n", base_exit);
    
    return base_exit;
}}
"#,
        grace_period = grace_period,
        sync_mode_int = if sync_mode { 1 } else { 0 },
        network_failure_kill_count = network_failure_kill_count,
    )
}

#[test]
fn decimal_notation_of_small_and_large_numbers() {
    assert_eq!(render_decimal(0), "0");
    assert_eq!(render_decimal(7), "7");
    assert_eq!(render_decimal(9), "9");
    assert_eq!(render_decimal(10), "10");
    assert_eq!(render_decimal(42), "42");
    assert_eq!(render_decimal(100), "100");
    assert_eq!(render_decimal(1905), "1905");
    assert_eq!(render_decimal(1_000_000_007), "1000000007");
    assert_eq!(render_decimal(u32::MAX), "4294967295");
}

#[test]
fn decimal_notation_agrees_with_std() {
    let mut n: u32 = 1;
    for _ in 0..200 {
        assert_eq!(render_decimal(n), n.to_string());
        n = n.wrapping_mul(1_664_525).wrapping_add(1_013_904_223);
    }
}

#[test]
fn v2_loader_is_the_template_with_the_knobs_set_in() {
    assert_eq!(generate_windows_loader_v2(3, false, 3), expected_v2(3, false, 3));
    assert_eq!(generate_windows_loader_v2(0, true, 0), expected_v2(0, true, 0));
    assert_eq!(generate_windows_loader_v2(30, true, 5), expected_v2(30, true, 5));
    assert_eq!(
        generate_windows_loader_v2(u32::MAX, false, u32::MAX),
        expected_v2(u32::MAX, false, u32::MAX)
    );
}

#[test]
fn v2_loader_defines_its_constants() {
    let source = generate_windows_loader_v2(120, true, 7);
    assert!(source.contains(
        "#define GRACE_PERIOD_SECONDS 120\n#define SYNC_MODE 1\n#define NETWORK_FAILURE_KILL_COUNT 7\n"
    ));
    assert!(source.contains("#define HEALTH_CHECK_INTERVAL 5 "));
    assert!(source.contains("typedef struct {\n"));
    assert!(source.contains("} HealthStatus;"));
    assert!(!source.contains("{{"));
    assert!(!source.contains("}}"));
    assert!(source.starts_with("\n#include <windows.h>\n"));
    assert!(source.ends_with("return base_exit;\n}\n"));
    let source = generate_windows_loader_v2(0, false, 0);
    assert!(source.contains(
        "#define GRACE_PERIOD_SECONDS 0\n#define SYNC_MODE 0\n#define NETWORK_FAILURE_KILL_COUNT 0\n"
    ));
}

#[test]
fn v2_loader_watches_under_every_asynchronous_policy() {
    let source = generate_windows_loader_v2(0, false, 0);
    assert!(source.contains("    if (!SYNC_MODE) {\n        char shm_name[64];"));
    assert!(!source.contains("(GRACE_PERIOD_SECONDS > 0 || NETWORK_FAILURE_KILL_COUNT > 0)"));
    let launch = source.find("base_process = pi.hProcess;").unwrap();
    let monitor = source.find("monitor_thread = CreateThread(").unwrap();
    let wait = source[monitor..].find("WaitForSingleObject(pi.hProcess, INFINITE);").unwrap();
    assert!(launch < monitor);
    assert!(source[launch..monitor].contains("if (!SYNC_MODE && health_status) {"));
    assert!(wait > 0);
    assert_eq!(source.matches("CreateThread(").count(), 1);
}

#[test]
fn v2_loader_ends_the_base_with_a_failure_code_and_cleans_up_on_every_way_out() {
    let source = generate_windows_loader_v2(3, false, 3);
    assert_eq!(source.matches("TerminateProcess(base_process, 1);").count(), 4);
    let main = source.find("int main(").unwrap();
    let body = &source[main..];
    assert_eq!(body.matches("clean_up();").count(), 2);
    let base_call = body.find("execute_binary(_binary_base_exe_start").unwrap();
    let clean = body[base_call..].find("clean_up();").unwrap();
    assert!(!body[base_call..base_call + clean].contains("return"));
    let clean_up = source.find("static void clean_up(void)").unwrap();
    let stop = source[clean_up..].find("TerminateProcess(overload_process, 0);").unwrap();
    let join = source[clean_up..].find("WaitForSingleObject(monitor_thread, INFINITE);").unwrap();
    let release = source[clean_up..].find("UnmapViewOfFile(health_status);").unwrap();
    assert!(stop < join && join < release);
    assert!(source.contains("[KillCode] Failed to start base binary"));
    assert!(source.contains("[KillCode] Failed to start overload binary"));
    assert!(source.contains("[KillCode] Overload verification failed (exit code: %d)"));
    assert!(source.contains("[KillCode] Warning: Failed to create shared memory"));
}

#[test]
fn loader_generation_is_repeatable() {
    let first = generate_windows_loader_v2(45, false, 9);
    let second = generate_windows_loader_v2(45, false, 9);
    assert_eq!(first.as_bytes(), second.as_bytes());
    let policy = MergePolicy::health_monitored(45, false, 9);
    assert_eq!(generate_loader_source(policy).as_bytes(), first.as_bytes());
    assert_eq!(generate_loader_source(policy), generate_loader_source(policy));
    let plain = MergePolicy::stop_on_exit();
    assert_eq!(generate_loader_source(plain).as_bytes(), generate_loader_source(plain).as_bytes());
}

#[test]
fn different_knobs_give_different_loaders() {
    let base = generate_windows_loader_v2(10, false, 3);
    assert_ne!(base, generate_windows_loader_v2(11, false, 3));
    assert_ne!(base, generate_windows_loader_v2(10, true, 3));
    assert_ne!(base, generate_windows_loader_v2(10, false, 4));
    assert_ne!(generate_windows_loader_v2(1, false, 23), generate_windows_loader_v2(12, false, 3));
}

#[test]
fn stop_on_exit_loader_is_the_fixed_stub() {
    let stub = loader_stub();
    assert_eq!(stub, LOADER_STUB);
    assert_eq!(stub.len(), 3777);
    assert!(stub.starts_with("\n#include <windows.h>\n#include <stdio.h>\n"));
    assert!(stub.contains("extern char _binary_base_exe_start[];"));
    assert!(stub.contains("extern char _binary_overload_exe_end[];"));
    assert!(stub.contains("TerminateProcess(overload_process, 0);"));
    assert!(stub.contains("[KillCode] Failed to start base binary"));
    assert!(stub.ends_with("    return base_exit;\n}\n"));
    assert!(!stub.contains("GRACE_PERIOD_SECONDS"));
}

#[test]
fn loader_source_follows_the_mode() {
    let plain = MergePolicy {
        mode: MergeMode::StopOnExit,
        sync_mode: true,
        grace_period_seconds: 9,
        network_failure_kill_count: 9,
    };
    assert_eq!(generate_loader_source(plain), LOADER_STUB);
    let watched = MergePolicy {
        mode: MergeMode::HealthMonitored,
        sync_mode: true,
        grace_period_seconds: 9,
        network_failure_kill_count: 8,
    };
    assert_eq!(generate_loader_source(watched), expected_v2(9, true, 8));
}
