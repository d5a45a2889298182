use edgebench::probe::{
    active_device_report, chars_of, contains, listing, matches_at, preferred, push_devices,
    push_or_unknown, status, ActiveDevice, DeviceHint, DeviceInfo, PlatformInfo,
};

fn device(name: &str, version: &str) -> DeviceInfo {
    DeviceInfo { name: name.to_string(), version: version.to_string() }
}

fn platform(name: &str, devices: Vec<DeviceInfo>) -> PlatformInfo {
    PlatformInfo { name: name.to_string(), devices }
}

#[test]
fn chars_of_gives_every_character() {
    assert_eq!(chars_of(""), Vec::<char>::new());
    assert_eq!(chars_of("abc"), vec!['a', 'b', 'c']);
    assert_eq!(chars_of("gr\u{fc}n"), vec!['g', 'r', '\u{fc}', 'n']);
}

#[test]
fn matches_at_compares_from_a_position() {
    let hay = chars_of("OpenCL 3.0");
    assert!(matches_at(&hay, &chars_of("Open"), 0));
    assert!(matches_at(&hay, &chars_of("3.0"), 7));
    assert!(!matches_at(&hay, &chars_of("3.0"), 6));
    assert!(matches_at(&hay, &chars_of(""), 10));
}

#[test]
fn contains_finds_a_text_anywhere() {
    assert!(contains("Mesa rusticl", "rusticl"));
    assert!(contains("rusticl", "rusticl"));
    assert!(contains("xrusticlx", "rusticl"));
    assert!(contains("OpenCL 3.0 Mesa", "OpenCL 3.0"));
    assert!(contains("aab", "ab"));
}

#[test]
fn contains_finds_the_empty_text_everywhere() {
    assert!(contains("", ""));
    assert!(contains("abc", ""));
}

#[test]
fn contains_misses_what_is_not_there() {
    assert!(!contains("", "a"));
    assert!(!contains("rustic", "rusticl"));
    assert!(!contains("Rusticl", "rusticl"));
    assert!(!contains("OpenCL 1.2", "OpenCL 3.0"));
    assert!(!contains("ab", "abc"));
}

#[test]
fn contains_counts_characters_not_bytes() {
    assert!(contains("\u{e4}\u{f6}\u{fc}", "\u{f6}\u{fc}"));
    assert!(!contains("\u{e4}\u{f6}\u{fc}", "\u{fc}\u{f6}"));
}

#[test]
fn preferred_needs_platform_and_version() {
    assert!(preferred("rusticl", "OpenCL 3.0"));
    assert!(preferred("Mesa rusticl", "OpenCL 3.0 Mesa 24"));
    assert!(!preferred("rusticl", "OpenCL 1.2"));
    assert!(!preferred("NVIDIA CUDA", "OpenCL 3.0 CUDA"));
}

#[test]
fn listing_of_nothing_is_the_warning() {
    assert_eq!(listing(&Vec::new()), "Warning: rusticl platform not found!\n");
}

#[test]
fn listing_names_platforms_and_devices() {
    let ps = vec![
        platform("NVIDIA CUDA", vec![device("RTX", "OpenCL 3.0 CUDA")]),
        platform("Clover", Vec::new()),
    ];
    assert_eq!(
        listing(&ps),
        "Platform #0: NVIDIA CUDA\n  Device #0: RTX (OpenCL 3.0 CUDA)\nPlatform #1: Clover\n\
         Warning: rusticl platform not found!\n"
    );
}

#[test]
fn listing_marks_the_preferred_device() {
    let ps = vec![
        platform("Portable Computing Language", vec![device("cpu", "OpenCL 3.0 PoCL")]),
        platform(
            "rusticl",
            vec![device("llvmpipe", "OpenCL 1.2"), device("radeonsi", "OpenCL 3.0")],
        ),
    ];
    assert_eq!(
        listing(&ps),
        "Platform #0: Portable Computing Language\n  Device #0: cpu (OpenCL 3.0 PoCL)\n\
         Platform #1: rusticl\n  Device #0: llvmpipe (OpenCL 1.2)\n  \
         Device #1: radeonsi (OpenCL 3.0)\n  \
         -> This is the rusticl platform with OpenCL 3.0 support\n\
         rusticl platform found - configured to use via OPENCV_OPENCL_DEVICE\n"
    );
}

#[test]
fn listing_numbers_past_nine() {
    let devices: Vec<DeviceInfo> = (0..12).map(|_| device("d", "v")).collect();
    let text = listing(&vec![platform("p", devices)]);
    assert!(text.contains("  Device #9: d (v)\n  Device #10: d (v)\n  Device #11: d (v)\n"));
}

#[test]
fn push_devices_tells_whether_the_preferred_one_is_there() {
    let mut out = String::from(">");
    let found = push_devices(&mut out, &platform("rusticl", vec![device("a", "OpenCL 3.0")]));
    assert!(found);
    assert_eq!(
        out,
        ">  Device #0: a (OpenCL 3.0)\n  -> This is the rusticl platform with OpenCL 3.0 support\n"
    );
    let mut out = String::new();
    let found = push_devices(&mut out, &platform("other", vec![device("a", "OpenCL 3.0")]));
    assert!(!found);
    assert_eq!(out, "  Device #0: a (OpenCL 3.0)\n");
}

#[test]
fn status_says_enabled_or_disabled() {
    assert_eq!(status(true), "OpenCL is enabled\n\n");
    assert_eq!(status(false), "OpenCL is disabled\n\n");
}

#[test]
fn active_device_block_names_the_device() {
    let found = ActiveDevice::Device {
        name: Some("radeonsi".to_string()),
        version: Some("OpenCL 3.0".to_string()),
    };
    assert_eq!(
        active_device_report(&found),
        "=== ACTIVE OpenCL DEVICE ===\nDevice Name: radeonsi\nDevice Version: OpenCL 3.0\n\
         =============================\n\n"
    );
}

#[test]
fn active_device_block_says_unknown_for_what_could_not_be_read() {
    let found = ActiveDevice::Device { name: None, version: None };
    assert_eq!(
        active_device_report(&found),
        "=== ACTIVE OpenCL DEVICE ===\nDevice Name: Unknown\nDevice Version: Unknown\n\
         =============================\n\n"
    );
    let mut out = String::from("x");
    push_or_unknown(&mut out, &None);
    push_or_unknown(&mut out, &Some("y".to_string()));
    assert_eq!(out, "xUnknowny");
}

#[test]
fn active_device_failures_are_warnings() {
    assert_eq!(
        active_device_report(&ActiveDevice::NoDevice { reason: "index 0".to_string() }),
        "Warning: Could not get device from context: index 0\n\n"
    );
    assert_eq!(
        active_device_report(&ActiveDevice::EmptyContext),
        "Warning: OpenCL context is empty\n\n"
    );
    assert_eq!(
        active_device_report(&ActiveDevice::NoContext { reason: "none".to_string() }),
        "Warning: Could not get OpenCL context: none\n\n"
    );
}

#[test]
fn device_hint_is_platform_class_and_index() {
    assert_eq!(DeviceHint::rusticl_gpu().setting(), "rusticl:GPU:0");
    let h = DeviceHint { platform: "Intel".to_string(), class: "CPU".to_string(), index: Some(12) };
    assert_eq!(h.setting(), "Intel:CPU:12");
}

#[test]
fn device_hint_without_an_index_ends_with_a_colon() {
    let h = DeviceHint { platform: "AMD".to_string(), class: "GPU".to_string(), index: None };
    assert_eq!(h.setting(), "AMD:GPU:");
}
