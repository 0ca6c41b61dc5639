use frc::artifacts::{clean_action, find_last_so, is_debug_file, CleanAction};
use frc::tools::{
    archive_url, clang_args_for_sysroot, clang_args_for_toolchain, download_capacity,
    find_wpilib_gcc, gcc_below_toolchain, generate_bindings, is_error_macro, parse_task,
    sysroot_below_toolchain, BindingsCrate, Task, ERROR_MACRO_CONSTANTS, FRC_MAVEN_URL,
    WPILIB_YEAR,
};

#[test]
fn tasks_are_read_from_the_first_argument() {
    assert_eq!(parse_task(None), Ok(Task::Help));
    assert_eq!(parse_task(Some("--help")), Ok(Task::Help));
    assert_eq!(parse_task(Some("codegen")), Ok(Task::Codegen));
    assert_eq!(parse_task(Some("deploy")), Err("Invalid task name: deploy".to_string()));
    assert_eq!(parse_task(Some("")), Err("Invalid task name: ".to_string()));
}

#[test]
fn bindings_are_planned() {
    assert_eq!(
        generate_bindings(None),
        Ok(vec![BindingsCrate::WpihalSys, BindingsCrate::WpiutilSys, BindingsCrate::NiFrcSys])
    );
    assert_eq!(generate_bindings(Some("wpihal_sys")), Ok(vec![BindingsCrate::WpihalSys]));
    assert_eq!(generate_bindings(Some("wpiutil_sys")), Ok(vec![BindingsCrate::WpiutilSys]));
    assert_eq!(generate_bindings(Some("ni_frc_sys")), Ok(vec![BindingsCrate::NiFrcSys]));
    assert_eq!(
        generate_bindings(Some("cscore_sys")),
        Err("Invalid crate name: cscore_sys".to_string())
    );
}

#[test]
fn compiler_arguments_for_a_system_root() {
    let args = clang_args_for_sysroot("/tools/sysroot");
    assert_eq!(
        args,
        vec![
            "--target=armv7-unknown-linux-gnueabi",
            "-isysroot/tools/sysroot",
            "--sysroot=/tools/sysroot",
            "-iwithsysroot/usr/lib/gcc/arm-nilrt-linux-gnueabi/12/include",
            "-iwithsysroot/usr/lib/gcc/arm-nilrt-linux-gnueabi/12/include-fixed",
            "-iwithsysroot/usr/include/c++/12",
            "-iwithsysroot/usr/include/c++/12/arm-nilrt-linux-gnueabi",
            "-iwithsysroot/usr/include/c++/12/backward",
            "-iwithsysroot/usr/include",
        ]
    );
}

#[test]
fn compiler_arguments_for_a_toolchain() {
    let args = clang_args_for_toolchain("/home/user/wpilib/2024");
    assert_eq!(args.len(), 9);
    assert_eq!(args[0], "--target=armv7-unknown-linux-gnueabi");
    let sysroot = args[1].strip_prefix("-isysroot").unwrap();
    assert_eq!(args[2].strip_prefix("--sysroot=").unwrap(), sysroot);
    assert_eq!(args, clang_args_for_sysroot(sysroot));
    assert!(sysroot.starts_with("/home/user/wpilib/2024"));
    assert!(sysroot.ends_with("sysroot"));
    assert_ne!(sysroot, "/home/user/wpilib/2024");
    assert_eq!(sysroot_below_toolchain(), "roborio-academic/arm-nilrt-linux-gnueabi/sysroot");
}

#[test]
fn the_cross_compiler_is_found_below_the_toolchain() {
    assert_eq!(WPILIB_YEAR, "2024");
    assert_eq!(gcc_below_toolchain(), "roborio-academic/bin/arm-frc2024-linux-gnueabi-gcc");
    let gcc = find_wpilib_gcc("/home/user/wpilib/2024");
    assert!(gcc.starts_with("/home/user/wpilib/2024"));
    assert!(gcc.ends_with("arm-frc2024-linux-gnueabi-gcc"));
    assert_ne!(gcc, "/home/user/wpilib/2024");
}

#[test]
fn archive_addresses() {
    assert_eq!(
        archive_url("hal", "2024.2.1", "headers"),
        "https://frcmaven.wpi.edu/artifactory/release/edu/wpi/first/hal/hal-cpp/2024.2.1/hal-cpp-2024.2.1-headers.zip"
    );
    assert_eq!(
        archive_url("wpiutil", "2024.2.1", "sources"),
        format!("{FRC_MAVEN_URL}/wpiutil/wpiutil-cpp/2024.2.1/wpiutil-cpp-2024.2.1-sources.zip")
    );
}

#[test]
fn the_last_shared_object_mark_is_found() {
    assert_eq!(find_last_so(b"libwpiHal.so"), Some(9));
    assert_eq!(find_last_so(b"libwpiHal.so.24.2.1"), Some(9));
    assert_eq!(find_last_so(b"a.so.b.so.1"), Some(6));
    assert_eq!(find_last_so(b".so"), Some(0));
    assert_eq!(find_last_so(b"so"), None);
    assert_eq!(find_last_so(b""), None);
    assert_eq!(find_last_so(b"libwpiHal.a"), None);
    assert_eq!(find_last_so(b"x.s.o"), None);
}

#[test]
fn unpacked_files_are_cleaned_by_name() {
    assert_eq!(clean_action(b".debug"), CleanAction::Remove);
    assert_eq!(clean_action(b"libwpiHal.so.debug"), CleanAction::Rename(12));
    assert_eq!(clean_action(b"libwpiHal.debug"), CleanAction::Keep);
    assert_eq!(clean_action(b"libwpiHal.so"), CleanAction::Keep);
    assert_eq!(clean_action(b"libwpiHal.so.24.2.1"), CleanAction::Rename(12));
    assert_eq!(clean_action(b"libNiFpgaLv.so.13"), CleanAction::Rename(14));
    assert_eq!(clean_action(b"a.so.b.so"), CleanAction::Keep);
    assert_eq!(clean_action(b"README"), CleanAction::Keep);
    assert_eq!(clean_action(b""), CleanAction::Keep);
    assert!(is_debug_file(b".debug"));
    assert!(!is_debug_file(b".debuG"));
    assert!(!is_debug_file(b"x.debug"));
}

#[test]
fn room_for_an_archive() {
    assert_eq!(download_capacity(None), 1_000_000);
    assert_eq!(download_capacity(Some(0)), 100_000_000);
    assert_eq!(download_capacity(Some(99_999_999)), 100_000_000);
    assert_eq!(download_capacity(Some(100_000_000)), 100_000_000);
    assert_eq!(download_capacity(Some(100_000_001)), 100_000_001);
}

#[test]
fn status_macros_are_known_by_name() {
    for name in ERROR_MACRO_CONSTANTS {
        assert!(is_error_macro(name));
    }
    assert_eq!(ERROR_MACRO_CONSTANTS.len(), 32);
    assert!(is_error_macro("HAL_SUCCESS"));
    assert!(is_error_macro("HAL_CAN_BUFFER_OVERRUN"));
    assert!(!is_error_macro("HAL_kMaxJoystickAxes"));
    assert!(!is_error_macro("hal_success"));
    assert!(!is_error_macro(""));
}
