use pico::driver::{output_name, Operation};

#[test]
fn operation_from_the_switches() {
    assert_eq!(Operation::select(false, false), Operation::Encode);
    assert_eq!(Operation::select(true, false), Operation::Header);
    assert_eq!(Operation::select(false, true), Operation::Decode);
    assert_eq!(Operation::select(true, true), Operation::Decode);
}

#[test]
fn extension_that_goes_with_the_operation() {
    assert_eq!(Operation::Encode.default_extension(), ".pico");
    assert_eq!(Operation::Header.default_extension(), ".pico");
    assert_eq!(Operation::Decode.default_extension(), ".raw");
}

#[test]
fn name_of_the_output_file() {
    assert_eq!(output_name("sample", "", None, &Operation::Encode), "sample.pico");
    assert_eq!(output_name("sample", "", None, &Operation::Decode), "sample.raw");
    assert_eq!(
        output_name("sample", "-1", None, &Operation::Encode),
        "sample-1.pico"
    );
    assert_eq!(
        output_name("sample", "_x", Some(".bin"), &Operation::Decode),
        "sample_x.bin"
    );
    assert_eq!(output_name("", "", Some(""), &Operation::Encode), "");
}
