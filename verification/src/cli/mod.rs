//! The command-line side of the hub: where the database lives, what
//! `copy` takes of a record, and the bookkeeping of clipboard attempts.
pub mod clipboard;
pub mod config;

use vstd::prelude::*;

use crate::domain::output::{format_record_detail, key_label_or_id, record_detail_text};
use crate::domain::record::RecordDetail;
use crate::error::CtxError;

verus! {

/// The part of a record that `copy` takes.
#[derive(Clone, Copy, Debug, PartialEq, Eq)]
pub enum CopyField {
    Content,
    Command,
    Url,
    Key,
    Title,
    Full,
}

/// What is copied of `r` for `field`: the content (also for a command or
/// a URL), the key (the id where there is no key), the title, or the
/// full record text.
pub open spec fn copy_text(r: RecordDetail, field: CopyField) -> Seq<char> {
    match field {
        CopyField::Content | CopyField::Command | CopyField::Url => r.content@,
        CopyField::Key => match r.key {
            Some(k) => k@,
            None => r.id@,
        },
        CopyField::Title => r.title@,
        CopyField::Full => record_detail_text(r),
    }
}

/// The name of a copy field as shown to users.
pub open spec fn field_name_text(field: CopyField) -> Seq<char> {
    match field {
        CopyField::Content => "content"@,
        CopyField::Command => "command"@,
        CopyField::Url => "url"@,
        CopyField::Key => "key"@,
        CopyField::Title => "title"@,
        CopyField::Full => "full"@,
    }
}

/// The value of `record` selected by `field`.
pub fn copy_value(record: &RecordDetail, field: CopyField) -> (r: String)
    ensures
        r@ == copy_text(*record, field),
{
    match field {
        CopyField::Content | CopyField::Command | CopyField::Url => record.content.clone(),
        CopyField::Key => match &record.key {
            Some(k) => k.clone(),
            None => record.id.clone(),
        },
        CopyField::Title => record.title.clone(),
        CopyField::Full => format_record_detail(record),
    }
}

/// The name of `field`.
pub fn field_name(field: CopyField) -> (r: &'static str)
    ensures
        r@ == field_name_text(field),
{
    match field {
        CopyField::Content => "content",
        CopyField::Command => "command",
        CopyField::Url => "url",
        CopyField::Key => "key",
        CopyField::Title => "title",
        CopyField::Full => "full",
    }
}

/// What `copy` does with the selected value.
#[derive(Debug, PartialEq, Eq)]
pub enum CopyAction {
    /// Print the value.
    Print(String),
    /// Put the value on the clipboard; on success print `confirmation`,
    /// otherwise print the value instead.
    Clipboard { value: String, confirmation: String },
}

/// The line printed after a successful copy: `copied: `, the record's key
/// (its id where it has none), and the field name in parentheses.
pub open spec fn confirmation_text(r: RecordDetail, field: CopyField) -> Seq<char> {
    "copied: "@ + key_label_or_id(r) + " ("@ + field_name_text(field) + ")"@
}

/// Decides what `copy` does: a missing record is an error; with `print`
/// the selected value is printed, otherwise it goes to the clipboard.
pub fn copy_action(record: Option<RecordDetail>, key_or_id: &str, field: CopyField, print: bool) -> (r:
    Result<CopyAction, CtxError>)
    ensures
        record is None ==> (r matches Err(CtxError::RecordNotFound(k)) && k@ == key_or_id@),
        record matches Some(d) ==> (print ==> (r matches Ok(CopyAction::Print(v)) && v@ == copy_text(
            d,
            field,
        ))),
        record matches Some(d) ==> (!print ==> (r matches Ok(
            CopyAction::Clipboard { value, confirmation },
        ) && value@ == copy_text(d, field) && confirmation@ == confirmation_text(d, field))),
{
    match record {
        None => Err(CtxError::RecordNotFound(String::from_str(key_or_id))),
        Some(d) => {
            let value = copy_value(&d, field);
            if print {
                Ok(CopyAction::Print(value))
            } else {
                let mut confirmation = String::from_str("copied: ");
                match &d.key {
                    Some(k) => confirmation.append(k.as_str()),
                    None => confirmation.append(d.id.as_str()),
                }
                confirmation.append(" (");
                confirmation.append(field_name(field));
                confirmation.append(")");
                proof {
                    reveal_strlit("copied: ");
                    reveal_strlit(" (");
                    reveal_strlit(")");
                }
                assert(confirmation@ =~= confirmation_text(d, field));
                Ok(CopyAction::Clipboard { value, confirmation })
            }
        },
    }
}

} // verus!
