//! The job parameters that are checked before a job is started.

use vstd::prelude::*;
use crate::error::{Parameter, SegmentationError, SegmentationErrorView};
use crate::text::{
    chars_eq, chars_to_ascii_lower, chars_to_ascii_upper, copy_str, eq_ignore_ascii_case, opt_view,
    str_chars, string_from_chars, to_ascii_upper, trim, trim_chars,
};

verus! {

/// The model that a request selects: `Base` when none is named, else the one
/// of `Base` and `Large` that the name spells, whatever the case of its letters.
pub open spec fn selected_model(model_name: Option<Seq<char>>) -> Option<Seq<char>> {
    match model_name {
        None => Some("Base"@),
        Some(name) => if eq_ignore_ascii_case(name, "Base"@) {
            Some("Base"@)
        } else if eq_ignore_ascii_case(name, "Large"@) {
            Some("Large"@)
        } else {
            None
        },
    }
}

/// The device that a request selects: `GPU` when none is named, else the one of
/// `GPU` and `CPU` that the name spells, whatever the case of its letters.
pub open spec fn selected_device(device: Option<Seq<char>>) -> Option<Seq<char>> {
    match device {
        None => Some("GPU"@),
        Some(name) => if eq_ignore_ascii_case(name, "GPU"@) {
            Some("GPU"@)
        } else if eq_ignore_ascii_case(name, "CPU"@) {
            Some("CPU"@)
        } else {
            None
        },
    }
}

/// The failure for a model name that selects no model.
pub open spec fn model_error(name: Seq<char>) -> SegmentationErrorView {
    SegmentationErrorView::InvalidParameter { parameter: Parameter::ModelName, value: name }
}

/// The failure for a device name that selects no device: it carries the name
/// in upper case.
pub open spec fn device_error(name: Seq<char>) -> SegmentationErrorView {
    SegmentationErrorView::InvalidParameter {
        parameter: Parameter::Device,
        value: to_ascii_upper(name),
    }
}

/// The checked parameters of a job: the model and the device as the service
/// spells them, or the failure of the first of the two that is not valid.
pub open spec fn checked_parameters(
    model_name: Option<Seq<char>>,
    device: Option<Seq<char>>,
) -> Result<
    (Seq<char>, Seq<char>),
    SegmentationErrorView,
> {
    match selected_model(model_name) {
        None => Err(model_error(model_name->0)),
        Some(model) => match selected_device(device) {
            None => Err(device_error(device->0)),
            Some(dev) => Ok((model, dev)),
        },
    }
}

/// Whether `name` spells `word`, whatever the case of its letters.
fn spells(name: &Vec<char>, word: &str) -> (r: bool)
    ensures
        r == eq_ignore_ascii_case(name@, word@),
{
    let a = chars_to_ascii_lower(name);
    let w = str_chars(word);
    let b = chars_to_ascii_lower(&w);
    chars_eq(&a, &b)
}

/// Checks the model name of a request and gives it as the service spells it.
pub fn normalize_model(model_name: Option<&str>) -> (r: Result<String, SegmentationError>)
    ensures
        match r {
            Ok(model) => selected_model(opt_view(model_name)) == Some(model@),
            Err(e) => {
                &&& selected_model(opt_view(model_name)) is None
                &&& model_name matches Some(name)
                &&& e@ == model_error(name@)
            },
        },
{
    match model_name {
        None => Ok(copy_str("Base")),
        Some(name) => {
            let chars = str_chars(name);
            if spells(&chars, "Base") {
                Ok(copy_str("Base"))
            } else if spells(&chars, "Large") {
                Ok(copy_str("Large"))
            } else {
                Err(
                    SegmentationError::InvalidParameter {
                        parameter: Parameter::ModelName,
                        value: copy_str(name),
                    },
                )
            }
        },
    }
}

/// Checks the device of a request and gives it in upper case. A rejected name
/// is reported in upper case too.
pub fn normalize_device(device: Option<&str>) -> (r: Result<String, SegmentationError>)
    ensures
        match r {
            Ok(name) => selected_device(opt_view(device)) == Some(name@),
            Err(e) => {
                &&& selected_device(opt_view(device)) is None
                &&& device matches Some(name)
                &&& e@ == device_error(name@)
            },
        },
{
    match device {
        None => Ok(copy_str("GPU")),
        Some(name) => {
            let chars = str_chars(name);
            if spells(&chars, "GPU") {
                Ok(copy_str("GPU"))
            } else if spells(&chars, "CPU") {
                Ok(copy_str("CPU"))
            } else {
                let upper = chars_to_ascii_upper(&chars);
                Err(
                    SegmentationError::InvalidParameter {
                        parameter: Parameter::Device,
                        value: string_from_chars(&upper),
                    },
                )
            }
        },
    }
}

/// Whether an access token was supplied: one that is not blank.
pub open spec fn token_present(token: Option<Seq<char>>) -> bool {
    match token {
        Some(t) => trim(t).len() > 0,
        None => false,
    }
}

/// Whether an access token was supplied: one that is not blank.
pub fn has_token(token: Option<&str>) -> (r: bool)
    ensures
        r == token_present(opt_view(token)),
{
    match token {
        Some(t) => {
            let chars = str_chars(t);
            trim_chars(&chars).len() > 0
        },
        None => false,
    }
}

} // verus!
