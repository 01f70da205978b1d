//! The debug messenger of the validation layers: which messages it is asked
//! for, and how a message is labelled.

use crate::codes::{
    severity_error, severity_error_bit, severity_info, severity_info_bit, severity_verbose,
    severity_verbose_bit, severity_warning, severity_warning_bit, type_general, type_general_bit,
    type_performance, type_performance_bit, type_validation, type_validation_bit,
};
use crate::constants::ValidationInfo;
use crate::device::{all_offered, are_all_offered};
use vstd::prelude::*;

verus! {

/// What a debug messenger is created with: its flags, and the severities and
/// types of message it passes on, as bit sets.
#[derive(Clone, Copy, PartialEq, Eq, Structural, Debug)]
pub struct DebugMessengerConfig {
    pub flags: u32,
    pub message_severity: u32,
    pub message_type: u32,
}

/// The labels of a message, and whether the call that caused the message is
/// to be aborted.
#[derive(Clone, Copy, Debug)]
pub struct DebugReport {
    pub severity: &'static str,
    pub types: &'static str,
    pub abort: bool,
}

/// The label of a severity. Only a single severity bit has a name.
pub open spec fn severity_text(message_severity: u32) -> Seq<char> {
    if message_severity == severity_verbose_bit() {
        "[Verbose]"@
    } else if message_severity == severity_warning_bit() {
        "[Warning]"@
    } else if message_severity == severity_error_bit() {
        "[Error]"@
    } else if message_severity == severity_info_bit() {
        "[Info]"@
    } else {
        "[Unknown]"@
    }
}

/// The label of a message type. Only a single type bit has a name.
pub open spec fn type_text(message_type: u32) -> Seq<char> {
    if message_type == type_general_bit() {
        "[General]"@
    } else if message_type == type_performance_bit() {
        "[Performance]"@
    } else if message_type == type_validation_bit() {
        "[Validation]"@
    } else {
        "[Unknown]"@
    }
}

/// The messenger the engine asks for: warnings and errors, of every type.
pub open spec fn messenger_config() -> DebugMessengerConfig {
    DebugMessengerConfig { flags: 0, message_severity: 0x1100, message_type: 0x7 }
}

/// Whether validation can be had from a driver that offers the layers
/// `available`: it is switched off, or every required layer is offered.
pub fn check_validation_layer_support(validation: &ValidationInfo, available: &Vec<String>) -> (b:
    bool)
    ensures
        b == (!validation.is_enable || all_offered(
            validation.required_validation_layers@,
            available@,
        )),
{
    !validation.is_enable || are_all_offered(&validation.required_validation_layers, available)
}

/// Labels a message of the validation layers. The call that caused the
/// message is never aborted.
pub fn vulkan_debug_utils_callback(message_severity: u32, message_type: u32) -> (report:
    DebugReport)
    ensures
        report.severity@ == severity_text(message_severity),
        report.types@ == type_text(message_type),
        !report.abort,
{
    let severity = if message_severity == severity_verbose() {
        "[Verbose]"
    } else if message_severity == severity_warning() {
        "[Warning]"
    } else if message_severity == severity_error() {
        "[Error]"
    } else if message_severity == severity_info() {
        "[Info]"
    } else {
        "[Unknown]"
    };
    let types = if message_type == type_general() {
        "[General]"
    } else if message_type == type_performance() {
        "[Performance]"
    } else if message_type == type_validation() {
        "[Validation]"
    } else {
        "[Unknown]"
    };
    DebugReport { severity, types, abort: false }
}

/// What the debug messenger is created with.
pub fn populate_debug_messenger_create_info() -> (config: DebugMessengerConfig)
    ensures
        config == messenger_config(),
{
    let warning = severity_warning();
    let error = severity_error();
    let general = type_general();
    let performance = type_performance();
    let validation = type_validation();
    let message_severity = warning | error;
    let message_type = general | performance | validation;
    assert(message_severity == 0x1100) by (bit_vector)
        requires
            message_severity == warning | error,
            warning == 0x100,
            error == 0x1000,
    ;
    assert(message_type == 0x7) by (bit_vector)
        requires
            message_type == general | performance | validation,
            general == 0x1,
            performance == 0x4,
            validation == 0x2,
    ;
    DebugMessengerConfig { flags: 0, message_severity, message_type }
}

/// Decides about the debug messenger: with validation on, the messenger to
/// create; with validation off, none.
pub fn setup_debug_utils(validation: &ValidationInfo) -> (config: Option<DebugMessengerConfig>)
    ensures
        config == if validation.is_enable {
            Some(messenger_config())
        } else {
            None
        },
{
    if !validation.is_enable {
        None
    } else {
        Some(populate_debug_messenger_create_info())
    }
}

} // verus!
