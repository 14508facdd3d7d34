use vstd::prelude::*;
use vstd::string::StringExecFns;

verus! {

/// Text of the OCR entry: `OCR`, or `OCR (<hotkey>)` when a hotkey is configured.
pub open spec fn spec_ocr_label(hotkey: Option<Seq<char>>) -> Seq<char> {
    match hotkey {
        None => "OCR"@,
        Some(h) => "OCR ("@ + h + ")"@,
    }
}

/// Text of the pin entry: it offers the opposite of the current state.
pub open spec fn spec_pin_label(pinned: bool) -> Seq<char> {
    if pinned {
        "Unpin"@
    } else {
        "Pin"@
    }
}

/// Text of the update entry: an attention variant once a newer version is known.
pub open spec fn spec_update_label(available: bool) -> Seq<char> {
    if available {
        "\u{1F4A1} New version available!"@
    } else {
        "Check for Updates..."@
    }
}

/// Whether a stored update-check result names a newer version: the check has
/// run (outer `Some`) and found one (inner `Some`).
pub open spec fn spec_update_available<T>(result: Option<Option<T>>) -> bool {
    match result {
        Some(Some(_)) => true,
        _ => false,
    }
}

/// Label of the OCR menu entry for the configured hotkey, if any.
pub fn ocr_label(hotkey: Option<&str>) -> (r: String)
    ensures
        r@ == spec_ocr_label(
            match hotkey {
                Some(h) => Some(h@),
                None => None,
            },
        ),
{
    match hotkey {
        None => String::from_str("OCR"),
        Some(h) => {
            let mut s = String::from_str("OCR (");
            s.append(h);
            s.append(")");
            s
        },
    }
}

/// Label of the pin menu entry for the current always-on-top state.
pub fn pin_label(pinned: bool) -> (r: String)
    ensures
        r@ == spec_pin_label(pinned),
{
    if pinned {
        String::from_str("Unpin")
    } else {
        String::from_str("Pin")
    }
}

/// Whether the stored result of the last update check reports a new version.
pub fn update_available<T>(result: &Option<Option<T>>) -> (r: bool)
    ensures
        r == spec_update_available(*result),
{
    match result {
        Some(Some(_)) => true,
        _ => false,
    }
}

/// Label of the update menu entry, given whether a new version is known.
pub(crate) fn update_entry_label(available: bool) -> (r: String)
    ensures
        r@ == spec_update_label(available),
{
    if available {
        String::from_str("\u{1F4A1} New version available!")
    } else {
        String::from_str("Check for Updates...")
    }
}

/// Label of the update menu entry for the stored result of the last update check.
pub fn update_label<T>(result: &Option<Option<T>>) -> (r: String)
    ensures
        r@ == spec_update_label(spec_update_available(*result)),
{
    update_entry_label(update_available(result))
}

} // verus!
