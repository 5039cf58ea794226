use vkboot::diagnostics::{
    category_label, decimal_i32, decimal_u32, diagnostics_config, format_diagnostic,
    handle_diagnostic, log_level_for, Category, DiagnosticMessage, LogLevel, Severity,
};
use vkboot::instance::{device_extensions, instance_extensions, instance_layers};

#[test]
fn config_registers_info_and_up_in_every_category() {
    let c = diagnostics_config();
    assert!(!c.verbose);
    assert!(c.info);
    assert!(c.warning);
    assert!(c.error);
    assert!(c.general);
    assert!(c.validation);
    assert!(c.performance);
}

#[test]
fn severities_map_to_sink_levels() {
    assert_eq!(log_level_for(&Severity::Verbose), LogLevel::Info);
    assert_eq!(log_level_for(&Severity::Info), LogLevel::Info);
    assert_eq!(log_level_for(&Severity::Warning), LogLevel::Warn);
    assert_eq!(log_level_for(&Severity::Error), LogLevel::Error);
}

#[test]
fn decimal_rendering_exact() {
    assert_eq!(decimal_u32(0), "0");
    assert_eq!(decimal_u32(7), "7");
    assert_eq!(decimal_u32(42), "42");
    assert_eq!(decimal_u32(4294967295), "4294967295");
    assert_eq!(decimal_i32(0), "0");
    assert_eq!(decimal_i32(-1), "-1");
    assert_eq!(decimal_i32(1302722304), "1302722304");
    assert_eq!(decimal_i32(-2147483648), "-2147483648");
}

#[test]
fn category_labels() {
    assert_eq!(category_label(&Category::General), "GENERAL");
    assert_eq!(category_label(&Category::Validation), "VALIDATION");
    assert_eq!(category_label(&Category::Performance), "PERFORMANCE");
}

#[test]
fn message_formats_as_one_tagged_line() {
    let msg = DiagnosticMessage {
        severity: Severity::Error,
        category: Category::Validation,
        id_name: String::from("VUID-VkSwapchainCreateInfoKHR-surface-01270"),
        id_number: -1302722304,
        body: String::from("  surface capabilities not queried"),
    };
    let line = format_diagnostic(&msg);
    assert_eq!(
        line,
        "VALIDATION [VUID-VkSwapchainCreateInfoKHR-surface-01270 (-1302722304)]: surface capabilities not queried"
    );
}

#[test]
fn message_with_no_name_keeps_the_brackets() {
    let msg = DiagnosticMessage {
        severity: Severity::Info,
        category: Category::General,
        id_name: String::new(),
        id_number: 0,
        body: String::from("loader ready"),
    };
    assert_eq!(format_diagnostic(&msg), "GENERAL [ (0)]: loader ready");
}

#[test]
fn callback_never_aborts_the_triggering_call() {
    let msg = DiagnosticMessage {
        severity: Severity::Warning,
        category: Category::Performance,
        id_name: String::from("perf"),
        id_number: 12,
        body: String::from("slow path"),
    };
    let (level, line, abort) = handle_diagnostic(&msg);
    assert_eq!(level, LogLevel::Warn);
    assert_eq!(line, "PERFORMANCE [perf (12)]: slow path");
    assert!(!abort);
}

#[test]
fn instance_extension_sets() {
    let plain = instance_extensions(false);
    assert_eq!(plain, vec!["VK_KHR_surface", "VK_KHR_win32_surface"]);
    let with_diagnostics = instance_extensions(true);
    assert_eq!(
        with_diagnostics,
        vec!["VK_KHR_surface", "VK_KHR_win32_surface", "VK_EXT_debug_utils"]
    );
    assert_eq!(instance_layers(), vec!["VK_LAYER_KHRONOS_validation"]);
    assert_eq!(device_extensions(), vec!["VK_KHR_swapchain"]);
}
