//! What the maintenance tasks of the project decide before they touch
//! anything: which task was asked for, which bindings it concerns, and what
//! the binding generator is told about the cross toolchain.

use crate::text::same_text;
use vstd::prelude::*;
use vstd::string::StringExecFns;

verus! {

/// The year of the toolchain release that bindings are generated with.
pub const WPILIB_YEAR: &'static str = "2024";

/// The address under which the sources and headers of the libraries are
/// published.
pub const FRC_MAVEN_URL: &'static str = "https://frcmaven.wpi.edu/artifactory/release/edu/wpi/first";

/// A maintenance task.
#[derive(Debug, Clone, Copy, PartialEq, Eq, Structural)]
pub enum Task {
    /// Print the usage text.
    Help,
    /// Generate bindings.
    Codegen,
}

/// The task that a first argument asks for.
pub open spec fn task_of(task: Option<Seq<char>>) -> Result<Task, Seq<char>> {
    match task {
        None => Ok(Task::Help),
        Some(name) => if name == "--help"@ {
            Ok(Task::Help)
        } else if name == "codegen"@ {
            Ok(Task::Codegen)
        } else {
            Err("Invalid task name: "@ + name)
        },
    }
}

/// The text of a result whose error is a string.
pub open spec fn text_of<T>(result: Result<T, String>) -> Result<T, Seq<char>> {
    match result {
        Ok(value) => Ok(value),
        Err(message) => Err(message@),
    }
}

/// Reads the task out of the first argument of the command line. No
/// argument asks for help; an argument that names no task is an error that
/// says so.
pub fn parse_task(task: Option<&str>) -> (parsed: Result<Task, String>)
    ensures
        text_of(parsed) == task_of(
            match task {
                Some(name) => Some(name@),
                None => None,
            },
        ),
{
    match task {
        None => Ok(Task::Help),
        Some(name) => if same_text(name, "--help") {
            Ok(Task::Help)
        } else if same_text(name, "codegen") {
            Ok(Task::Codegen)
        } else {
            let mut message = String::from_str("Invalid task name: ");
            message.append(name);
            Err(message)
        },
    }
}

/// A crate of generated bindings.
#[derive(Debug, Clone, Copy, PartialEq, Eq, Structural)]
pub enum BindingsCrate {
    WpihalSys,
    WpiutilSys,
    NiFrcSys,
}

/// The crates whose bindings a request concerns, in the order in which they
/// are generated.
pub open spec fn bindings_of(crate_name: Option<Seq<char>>) -> Result<
    Seq<BindingsCrate>,
    Seq<char>,
> {
    match crate_name {
        None => Ok(seq![BindingsCrate::WpihalSys, BindingsCrate::WpiutilSys, BindingsCrate::NiFrcSys]),
        Some(name) => if name == "wpihal_sys"@ {
            Ok(seq![BindingsCrate::WpihalSys])
        } else if name == "wpiutil_sys"@ {
            Ok(seq![BindingsCrate::WpiutilSys])
        } else if name == "ni_frc_sys"@ {
            Ok(seq![BindingsCrate::NiFrcSys])
        } else {
            Err("Invalid crate name: "@ + name)
        },
    }
}

/// Plans the generation of bindings: for one crate where one is named, for
/// all of them where none is. A name that is no crate of bindings is an
/// error that says so. The generation itself is the caller's work.
pub fn generate_bindings(crate_name: Option<&str>) -> (plan: Result<Vec<BindingsCrate>, String>)
    ensures
        match plan {
            Ok(crates) => bindings_of(
                match crate_name {
                    Some(name) => Some(name@),
                    None => None,
                },
            ) == Ok::<Seq<BindingsCrate>, Seq<char>>(crates@),
            Err(message) => bindings_of(
                match crate_name {
                    Some(name) => Some(name@),
                    None => None,
                },
            ) == Err::<Seq<BindingsCrate>, Seq<char>>(message@),
        },
{
    match crate_name {
        None => {
            let mut all: Vec<BindingsCrate> = Vec::new();
            all.push(BindingsCrate::WpihalSys);
            all.push(BindingsCrate::WpiutilSys);
            all.push(BindingsCrate::NiFrcSys);
            assert(all@ =~= seq![
                BindingsCrate::WpihalSys,
                BindingsCrate::WpiutilSys,
                BindingsCrate::NiFrcSys,
            ]);
            Ok(all)
        },
        Some(name) => {
            let chosen = if same_text(name, "wpihal_sys") {
                Some(BindingsCrate::WpihalSys)
            } else if same_text(name, "wpiutil_sys") {
                Some(BindingsCrate::WpiutilSys)
            } else if same_text(name, "ni_frc_sys") {
                Some(BindingsCrate::NiFrcSys)
            } else {
                None
            };
            match chosen {
                Some(one) => {
                    let mut only: Vec<BindingsCrate> = Vec::new();
                    only.push(one);
                    assert(only@ =~= seq![one]);
                    Ok(only)
                },
                None => {
                    let mut message = String::from_str("Invalid crate name: ");
                    message.append(name);
                    Err(message)
                },
            }
        },
    }
}

/// Joins a path and a path below it. Calls `Utf8Path::join` of camino. The
/// contract claims nothing: how two paths are joined is a matter of the
/// platform that the program runs on.
#[verifier::external_body]
fn join_path(base: &str, below: &str) -> (joined: String) {
    cargo_metadata::camino::Utf8Path::new(base).join(below).into_string()
}

/// Whether joining the path `base` with the path `below` can come back with
/// `joined`, in the path syntax of the platform that the program runs on.
pub closed spec fn is_joined(base: Seq<char>, below: Seq<char>, joined: Seq<char>) -> bool {
    exists|b: &str, p: &str, j: String| #[trigger]
        call_ensures(join_path, (b, p), j) && b@ == base && p@ == below && j@ == joined
}

/// The place of the cross compiler below the root of a toolchain.
pub open spec fn gcc_place() -> Seq<char> {
    "roborio-academic/bin/arm-frc"@ + WPILIB_YEAR@ + "-linux-gnueabi-gcc"@
}

/// The place of the target's system root below the root of a toolchain.
pub open spec fn sysroot_place() -> Seq<char> {
    "roborio-academic/arm-nilrt-linux-gnueabi/sysroot"@
}

/// Gives the place of the target's system root below the root of a
/// toolchain.
pub fn sysroot_below_toolchain() -> (place: &'static str)
    ensures
        place@ == sysroot_place(),
{
    "roborio-academic/arm-nilrt-linux-gnueabi/sysroot"
}

/// Gives the place of the cross compiler below the root of a toolchain.
pub fn gcc_below_toolchain() -> (place: String)
    ensures
        place@ == gcc_place(),
{
    let mut place = String::from_str("roborio-academic/bin/arm-frc");
    place.append(WPILIB_YEAR);
    place.append("-linux-gnueabi-gcc");
    place
}

/// Names the cross compiler of the toolchain with the given root: the root
/// joined with the compiler's place below it, in the path syntax of the
/// platform. What the join gives is the platform's to say; that it is the
/// join of these two paths is said here.
pub fn find_wpilib_gcc(toolchain_root: &str) -> (gcc: String)
    ensures
        is_joined(toolchain_root@, gcc_place(), gcc@),
{
    let place = gcc_below_toolchain();
    let below = place.as_str();
    let gcc = join_path(toolchain_root, below);
    assert(call_ensures(join_path, (toolchain_root, below), gcc));
    gcc
}

/// The arguments that tell the binding generator's compiler front end about
/// a toolchain whose system root is `sysroot`.
pub open spec fn clang_args_of(sysroot: Seq<char>) -> Seq<Seq<char>> {
    seq![
        "--target=armv7-unknown-linux-gnueabi"@,
        "-isysroot"@ + sysroot,
        "--sysroot="@ + sysroot,
        "-iwithsysroot/usr/lib/gcc/arm-nilrt-linux-gnueabi/12/include"@,
        "-iwithsysroot/usr/lib/gcc/arm-nilrt-linux-gnueabi/12/include-fixed"@,
        "-iwithsysroot/usr/include/c++/12"@,
        "-iwithsysroot/usr/include/c++/12/arm-nilrt-linux-gnueabi"@,
        "-iwithsysroot/usr/include/c++/12/backward"@,
        "-iwithsysroot/usr/include"@,
    ]
}

/// The texts of a list of strings.
pub open spec fn texts_of(strings: Seq<String>) -> Seq<Seq<char>> {
    Seq::new(strings.len(), |i: int| strings[i]@)
}

/// Lists the arguments for the binding generator's compiler front end,
/// given the system root of the toolchain: the target, the system root in
/// both spellings, and the header directories below it.
pub fn clang_args_for_sysroot(sysroot_path: &str) -> (args: Vec<String>)
    ensures
        texts_of(args@) == clang_args_of(sysroot_path@),
{
    let mut isysroot = String::from_str("-isysroot");
    isysroot.append(sysroot_path);
    let mut sysroot = String::from_str("--sysroot=");
    sysroot.append(sysroot_path);
    let mut args: Vec<String> = Vec::new();
    args.push(String::from_str("--target=armv7-unknown-linux-gnueabi"));
    args.push(isysroot);
    args.push(sysroot);
    args.push(String::from_str("-iwithsysroot/usr/lib/gcc/arm-nilrt-linux-gnueabi/12/include"));
    args.push(
        String::from_str("-iwithsysroot/usr/lib/gcc/arm-nilrt-linux-gnueabi/12/include-fixed"),
    );
    args.push(String::from_str("-iwithsysroot/usr/include/c++/12"));
    args.push(String::from_str("-iwithsysroot/usr/include/c++/12/arm-nilrt-linux-gnueabi"));
    args.push(String::from_str("-iwithsysroot/usr/include/c++/12/backward"));
    args.push(String::from_str("-iwithsysroot/usr/include"));
    assert(texts_of(args@) =~= clang_args_of(sysroot_path@));
    args
}

/// Lists the arguments for the binding generator's compiler front end,
/// given the root of the toolchain. The system root is the toolchain's root
/// joined with its place below it; the arguments are those of
/// [`clang_args_for_sysroot`] for that path.
pub fn clang_args_for_toolchain(toolchain_path: &str) -> (args: Vec<String>)
    ensures
        exists|sysroot: Seq<char>| #[trigger]
            is_joined(toolchain_path@, sysroot_place(), sysroot) && texts_of(args@)
                == clang_args_of(sysroot),
{
    let below = sysroot_below_toolchain();
    let sysroot = join_path(toolchain_path, below);
    assert(call_ensures(join_path, (toolchain_path, below), sysroot));
    assert(is_joined(toolchain_path@, sysroot_place(), sysroot@));
    clang_args_for_sysroot(sysroot.as_str())
}

/// The address of one archive of a library's C++ distribution: its headers
/// or its sources.
pub open spec fn archive_url_of(library: Seq<char>, version: Seq<char>, part: Seq<char>) -> Seq<
    char,
> {
    FRC_MAVEN_URL@ + "/"@ + library + "/"@ + library + "-cpp/"@ + version + "/"@ + library
        + "-cpp-"@ + version + "-"@ + part + ".zip"@
}

/// Builds the address of one archive of a library's C++ distribution.
/// `part` is `headers` or `sources`.
pub fn archive_url(library: &str, version: &str, part: &str) -> (url: String)
    ensures
        url@ == archive_url_of(library@, version@, part@),
{
    let mut url = String::from_str(FRC_MAVEN_URL);
    url.append("/");
    url.append(library);
    url.append("/");
    url.append(library);
    url.append("-cpp/");
    url.append(version);
    url.append("/");
    url.append(library);
    url.append("-cpp-");
    url.append(version);
    url.append("-");
    url.append(part);
    url.append(".zip");
    url
}

/// The room that is set aside for an archive before it is read, where the
/// server may or may not say how long it is.
pub open spec fn capacity_of(content_length: Option<usize>) -> usize {
    match content_length {
        Some(size) => if size >= 100_000_000 {
            size
        } else {
            100_000_000
        },
        None => 1_000_000,
    }
}

/// Chooses the room to set aside for an archive: the announced length or a
/// hundred million bytes, whichever is more, and a million bytes where no
/// length is announced.
pub fn download_capacity(content_length: Option<usize>) -> (capacity: usize)
    ensures
        capacity == capacity_of(content_length),
{
    match content_length {
        Some(size) => if size >= 100_000_000 {
            size
        } else {
            100_000_000
        },
        None => 1_000_000,
    }
}

/// The names of the status macros of the hardware layer. The binding
/// generator is told to give them the type of a status.
pub const ERROR_MACRO_CONSTANTS: [&'static str; 32] = [
    "HAL_SUCCESS",
    "SAMPLE_RATE_TOO_HIGH",
    "VOLTAGE_OUT_OF_RANGE",
    "LOOP_TIMING_ERROR",
    "SPI_WRITE_NO_MOSI",
    "SPI_READ_NO_MISO",
    "SPI_READ_NO_DATA",
    "INCOMPATIBLE_STATE",
    "NO_AVAILABLE_RESOURCES",
    "NULL_PARAMETER",
    "ANALOG_TRIGGER_LIMIT_ORDER_ERROR",
    "ANALOG_TRIGGER_PULSE_OUTPUT_ERROR",
    "PARAMETER_OUT_OF_RANGE",
    "RESOURCE_IS_ALLOCATED",
    "RESOURCE_OUT_OF_RANGE",
    "HAL_INVALID_ACCUMULATOR_CHANNEL",
    "HAL_COUNTER_NOT_SUPPORTED",
    "HAL_PWM_SCALE_ERROR",
    "HAL_HANDLE_ERROR",
    "HAL_LED_CHANNEL_ERROR",
    "HAL_INVALID_DMA_ADDITION",
    "HAL_INVALID_DMA_STATE",
    "HAL_SERIAL_PORT_NOT_FOUND",
    "HAL_SERIAL_PORT_OPEN_ERROR",
    "HAL_SERIAL_PORT_ERROR",
    "HAL_THREAD_PRIORITY_ERROR",
    "HAL_THREAD_PRIORITY_RANGE_ERROR",
    "HAL_CAN_TIMEOUT",
    "HAL_SIM_NOT_SUPPORTED",
    "HAL_USE_LAST_ERROR",
    "HAL_CONSOLE_OUT_ENABLED_ERROR",
    "HAL_CAN_BUFFER_OVERRUN",
];

/// Whether a macro of the given name is a status of the hardware layer.
pub open spec fn is_error_macro_name(name: Seq<char>) -> bool {
    exists|i: int| 0 <= i < 32 && ERROR_MACRO_CONSTANTS@[i]@ == name
}

/// Tells whether a macro is one of the status macros of the hardware layer.
pub fn is_error_macro(name: &str) -> (is: bool)
    ensures
        is == is_error_macro_name(name@),
{
    let names = ERROR_MACRO_CONSTANTS;
    let mut i: usize = 0;
    while i < 32
        invariant
            i <= 32,
            names == ERROR_MACRO_CONSTANTS,
            forall|j: int| 0 <= j < i ==> ERROR_MACRO_CONSTANTS@[j]@ != name@,
        decreases 32 - i,
    {
        if same_text(names[i], name) {
            return true;
        }
        i = i + 1;
    }
    false
}

} // verus!
