use frc::artifacts::{
    artifact_url, Build, BuildMethod, Linkage, MavenTarget, NoBuildMethod, WpilibArtifactInfo,
    NI_VERSION, WPILIB_VERSION,
};
use frc::dio::{level_is_high, word_for_level, Dio, DioPort, Dio3, NO_HANDLE};
use frc::pneumatics::bitset::{bits_from_word, mask_of, word_from_bits};
use frc::pneumatics::compressor::{flag_from_word, word_from_flag};

#[test]
fn words_carry_bitsets_without_loss() {
    assert_eq!(bits_from_word(0), 0);
    assert_eq!(bits_from_word(0x7FFF_FFFF), 0x7FFF_FFFF);
    assert_eq!(bits_from_word(-1), 0xFFFF_FFFF);
    assert_eq!(bits_from_word(i32::MIN), 0x8000_0000);
    assert_eq!(word_from_bits(0x8000_0000), i32::MIN);
    assert_eq!(word_from_bits(0xFFFF_FFFF), -1);
    assert_eq!(word_from_bits(0xF00F), 0xF00F);
    assert_eq!(mask_of(0), 1);
    assert_eq!(mask_of(31), 0x8000_0000);
}

#[test]
fn words_carry_truth_values() {
    assert!(!flag_from_word(0));
    assert!(flag_from_word(1));
    assert!(flag_from_word(-5));
    assert_eq!(word_from_flag(true), 1);
    assert_eq!(word_from_flag(false), 0);
    assert!(level_is_high(1));
    assert!(level_is_high(2));
    assert!(!level_is_high(0));
    assert_eq!(word_for_level(true), 1);
    assert_eq!(word_for_level(false), 0);
}

#[test]
fn pins_change_their_mode() {
    let pin: Dio<4> = Dio::new_uninit();
    assert_eq!(pin.raw_handle(), NO_HANDLE);
    assert!(!pin.is_open());
    let input = pin.into_input(77);
    assert_eq!(input.raw_handle(), 77);
    assert!(input.is_open());
    let output = input.into_output();
    assert_eq!(output.raw_handle(), 77);
    let input = output.into_input();
    assert_eq!(input.raw_handle(), 77);
    let output = input.into_output();
    let pin = output.into_uninit();
    assert_eq!(pin.raw_handle(), 0);
    assert!(!pin.is_open());
    let output = pin.into_output(12);
    assert_eq!(output.raw_handle(), 12);
}

#[test]
fn the_port_is_taken_once() {
    let port = match DioPort::take(false) {
        Some(port) => port,
        None => panic!("a fresh port was not given out"),
    };
    let pin: Dio3 = port.dio3;
    assert!(!pin.is_open());
    assert!(!port.dio1.is_open());
    assert!(!port.dio9.is_open());
    assert!(DioPort::take(true).is_none());
}

#[test]
fn target_triples_are_matched_to_platforms() {
    let table = [
        ("aarch64-unknown-linux-gnu", Some(MavenTarget::LinuxArm64)),
        ("armv7-unknown-linux-gnueabi", Some(MavenTarget::LinuxAthena)),
        ("x86_64-unknown-linux-gnu", Some(MavenTarget::LinuxX86_64)),
        ("x86_64-apple-darwin", Some(MavenTarget::OsXUniversal)),
        ("aarch64-apple-darwin", Some(MavenTarget::OsXUniversal)),
        ("aarch64-pc-windows-msvc", Some(MavenTarget::WindowsArm64)),
        ("x64_64-pc-windows-msvc", Some(MavenTarget::WindowsX86_64)),
        ("x86_64-pc-windows-msvc", None),
        ("arm-unknown-linux-gnueabi", None),
        ("", None),
    ];
    for (triple, platform) in table {
        assert_eq!(MavenTarget::from_rustc_target(triple), platform);
    }
}

#[test]
fn platforms_have_their_names() {
    let table = [
        (MavenTarget::LinuxArm32, "linuxarm32", "linux/arm32", Some("stdc++")),
        (MavenTarget::LinuxArm64, "linuxarm64", "linux/arm64", Some("stdc++")),
        (MavenTarget::LinuxAthena, "linuxathena", "linux/athena", Some("stdc++")),
        (MavenTarget::LinuxX86_64, "linuxx86-64", "linux/x86-64", Some("stdc++")),
        (MavenTarget::OsXUniversal, "osxuniversal", "osx/universal", Some("stdc++")),
        (MavenTarget::WindowsArm64, "windowsarm64", "windows/arm64", None),
        (MavenTarget::WindowsX86_64, "windowsx86-64", "windows/x86-64", None),
    ];
    for (platform, maven, path, link) in table {
        assert_eq!(platform.as_maven_fragment(), maven);
        assert_eq!(platform.as_path_fragment(), path);
        assert_eq!(platform.stdcpp_link(), link);
    }
    assert_eq!(Linkage::Static.as_suffix(), "static");
    assert_eq!(Linkage::Shared.as_suffix(), "");
    assert_eq!(Linkage::Static.as_directory(), "static");
    assert_eq!(Linkage::Shared.as_directory(), "shared");
}

#[test]
fn artifact_addresses() {
    assert_eq!(
        artifact_url("hal", "2024.2.1", MavenTarget::LinuxAthena, Linkage::Static, false),
        "https://frcmaven.wpi.edu/artifactory/release/edu/wpi/first/hal/hal-cpp/2024.2.1/hal-cpp-2024.2.1-linuxathenastatic.zip"
    );
    assert_eq!(
        artifact_url("wpiutil", WPILIB_VERSION, MavenTarget::WindowsX86_64, Linkage::Shared, true),
        "https://frcmaven.wpi.edu/artifactory/release/edu/wpi/first/wpiutil/wpiutil-cpp/2023.4.3/wpiutil-cpp-2023.4.3-windowsx86-64debug.zip"
    );
    assert_eq!(NI_VERSION, "2023.3.0");
}

fn library() -> Build {
    Build {
        maven_url_name: "hal",
        maven_link_name: "wpiHal",
        version: "2024.2.1",
        base_name: "wpihal",
        srcs: vec!["wpihal/src/**/*.cpp"],
        headers: "wpihal/headers",
        headers_env_vars: &["DEP_WPIUTIL_HEADERS"],
    }
}

#[test]
fn the_way_of_building_is_chosen() {
    let build = library();
    assert_eq!(
        build.method(true, true, "x86_64-unknown-linux-gnu", Linkage::Shared),
        Ok(BuildMethod::Maven(MavenTarget::LinuxX86_64))
    );
    assert_eq!(
        build.method(true, true, "riscv64gc-unknown-linux-gnu", Linkage::Static),
        Ok(BuildMethod::FromSource)
    );
    assert_eq!(
        build.method(false, true, "x86_64-unknown-linux-gnu", Linkage::Static),
        Ok(BuildMethod::FromSource)
    );
    assert_eq!(
        build.method(false, true, "x86_64-unknown-linux-gnu", Linkage::Shared),
        Err(NoBuildMethod::NoneApplicable)
    );
    assert_eq!(
        build.method(true, false, "riscv64gc-unknown-linux-gnu", Linkage::Static),
        Err(NoBuildMethod::NoneApplicable)
    );
    assert_eq!(
        build.method(false, false, "x86_64-unknown-linux-gnu", Linkage::Static),
        Err(NoBuildMethod::NoneEnabled)
    );
}

#[test]
fn release_archives_by_target() {
    let table = [
        ("aarch64-unknown-linux-gnu", false, "linuxarm64", "linux/arm64"),
        ("arm-unknown-linux-gnueabi", false, "linuxathena", "linux/athena"),
        ("arm-unknown-linux-gnueabi", true, "linuxarm32", "linux/arm32"),
        ("x86_64-unknown-linux-gnu", false, "linuxx86-64", "linux/x86-64"),
        ("aarch64-apple-darwin", false, "osxuniversal", "osx/universal"),
        ("x86_64-apple-darwin", true, "osxuniversal", "osx/universal"),
        ("x86_64-pc-windows-msvc", false, "windowsx86-64", "windows/x86-64"),
    ];
    for (triple, sim, name, path) in table {
        assert!(WpilibArtifactInfo::platform(triple, sim).is_some());
        let info = WpilibArtifactInfo::from_target(triple, sim);
        assert_eq!(info.platform_name, name);
        assert_eq!(info.object_path_in_zip, path);
    }
    assert_eq!(WpilibArtifactInfo::platform("armv7-unknown-linux-gnueabi", false), None);
    assert_eq!(WpilibArtifactInfo::platform("wasm32-unknown-unknown", true), None);
}
