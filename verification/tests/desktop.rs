use hecras_bridge::desktop::{
    get_file_info, greet, open_directory, open_directory_failure, FileProbe, Launch, Platform,
};
use hecras_bridge::envelope::FileInfo;

fn s(text: &str) -> String {
    text.to_string()
}

#[test]
fn each_platform_has_its_own_launcher() {
    assert_eq!(
        open_directory(Platform::Windows, s("C:\\out")),
        Some(Launch { program: s("explorer"), argument: s("C:\\out") })
    );
    assert_eq!(
        open_directory(Platform::MacOs, s("/out")),
        Some(Launch { program: s("open"), argument: s("/out") })
    );
    assert_eq!(
        open_directory(Platform::Linux, s("/out")),
        Some(Launch { program: s("xdg-open"), argument: s("/out") })
    );
}

#[test]
fn an_unknown_platform_starts_nothing() {
    assert_eq!(open_directory(Platform::Other, s("/out")), None);
}

#[test]
fn open_directory_failure_carries_the_os_words() {
    assert_eq!(
        open_directory_failure("No such file or directory (os error 2)"),
        "Failed to open directory: No such file or directory (os error 2)"
    );
}

#[test]
fn file_info_of_a_file_that_was_read() {
    assert_eq!(
        get_file_info(FileProbe::Read { size: 2048, modified: 1_700_000_000 }),
        Ok(FileInfo { size: 2048, modified: 1_700_000_000 })
    );
    assert_eq!(
        get_file_info(FileProbe::Read { size: 0, modified: 0 }),
        Ok(FileInfo { size: 0, modified: 0 })
    );
    assert_eq!(
        get_file_info(FileProbe::Read { size: u64::MAX, modified: u64::MAX }),
        Ok(FileInfo { size: u64::MAX, modified: u64::MAX })
    );
}

#[test]
fn file_info_errors_name_what_went_wrong() {
    assert_eq!(
        get_file_info(FileProbe::MetadataUnavailable(s("not found"))),
        Err(s("Error obteniendo información del archivo: not found"))
    );
    assert_eq!(
        get_file_info(FileProbe::ModifiedUnavailable(s("unsupported"))),
        Err(s("Error obteniendo fecha de modificación: unsupported"))
    );
    assert_eq!(
        get_file_info(FileProbe::BeforeEpoch(s("second time provided was later than self"))),
        Err(s("Error convirtiendo fecha: second time provided was later than self"))
    );
}

#[test]
fn greeting_wraps_the_name() {
    assert_eq!(greet("Ana"), "Hello, Ana! You've been greeted from Rust!");
    assert_eq!(greet(""), "Hello, ! You've been greeted from Rust!");
}
