use hudhook::c_string::MAX_PATH;
use hudhook::injection::{
    INFINITE, MEM_COMMIT, MEM_RELEASE, MEM_RESERVE, PAGE_READWRITE, PROCESS_ALL_ACCESS,
};
use hudhook::process::{PROCESS_QUERY_INFORMATION, PROCESS_VM_READ, SEARCH_ACCESS};
use windows::Win32::Foundation;
use windows::Win32::System::{Memory, Threading};

#[test]
fn rights_to_a_process_are_the_system_s() {
    assert_eq!(PROCESS_ALL_ACCESS, Threading::PROCESS_ALL_ACCESS.0);
    assert_eq!(PROCESS_QUERY_INFORMATION, Threading::PROCESS_QUERY_INFORMATION.0);
    assert_eq!(PROCESS_VM_READ, Threading::PROCESS_VM_READ.0);
    assert_eq!(
        SEARCH_ACCESS,
        (Threading::PROCESS_QUERY_INFORMATION | Threading::PROCESS_VM_READ).0
    );
}

#[test]
fn kinds_of_memory_are_the_system_s() {
    assert_eq!(MEM_COMMIT, Memory::MEM_COMMIT.0);
    assert_eq!(MEM_RESERVE, Memory::MEM_RESERVE.0);
    assert_eq!(MEM_RELEASE, Memory::MEM_RELEASE.0);
    assert_eq!(PAGE_READWRITE, Memory::PAGE_READWRITE.0);
}

#[test]
fn limits_are_the_system_s() {
    assert_eq!(MAX_PATH, Foundation::MAX_PATH as usize);
    assert_eq!(INFINITE, u32::MAX);
}
