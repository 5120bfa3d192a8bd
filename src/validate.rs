use vstd::prelude::*;
use vstd::string::StrSliceExecFns;
use crate::error::{field_limit, field_name, validation_text, TextField, ValidationError};
use crate::text::decimal;
use crate::types::LogEntry;

verus! {

pub const MAX_MESSAGE_CHARS: usize = 10000;
pub const MAX_TAGS: usize = 20;
pub const MAX_TAG_CHARS: usize = 50;
pub const MAX_STEP_INDEX: u32 = 1000;

/// Number of characters in an optional string; an absent one counts as empty.
pub open spec fn text_len(o: Option<String>) -> nat {
    match o {
        Some(s) => s@.len(),
        None => 0,
    }
}

/// The capped string fields, in the order they are checked.
pub open spec fn checked_fields() -> Seq<TextField> {
    seq![
        TextField::UserId,
        TextField::SessionId,
        TextField::RequestId,
        TextField::ErrorName,
        TextField::ErrorStack,
        TextField::FlowId,
        TextField::Dataset,
        TextField::IpAddress,
        TextField::Country,
    ]
}

pub open spec fn field_value(e: LogEntry, f: TextField) -> Option<String> {
    match f {
        TextField::UserId => e.user_id,
        TextField::SessionId => e.session_id,
        TextField::RequestId => e.request_id,
        TextField::ErrorName => e.error_name,
        TextField::ErrorStack => e.error_stack,
        TextField::FlowId => e.flow_id,
        TextField::Dataset => e.dataset,
        TextField::IpAddress => e.ip_address,
        TextField::Country => e.country,
    }
}

/// Index of the first tag, at `i` or later, longer than the tag cap.
pub open spec fn first_long_tag(tags: Seq<String>, i: nat) -> Option<nat>
    decreases tags.len() - i,
{
    if i >= tags.len() {
        None
    } else if tags[i as int]@.len() > MAX_TAG_CHARS {
        Some(i)
    } else {
        first_long_tag(tags, i + 1)
    }
}

/// The first capped field, at position `i` of `checked_fields()` or later, that is too long.
pub open spec fn first_long_field(e: LogEntry, i: nat) -> Option<ValidationError>
    decreases checked_fields().len() - i,
{
    if i >= checked_fields().len() {
        None
    } else {
        let f = checked_fields()[i as int];
        let n = text_len(field_value(e, f));
        if n > field_limit(f) {
            Some(ValidationError::FieldTooLong { field: f, len: n as usize })
        } else {
            first_long_field(e, i + 1)
        }
    }
}

/// The first rule that `e` breaks: message, then tags, then step index,
/// then the remaining string fields; `None` when it breaks none.
pub open spec fn first_violation(e: LogEntry) -> Option<ValidationError> {
    let m = e.message@.len();
    if m == 0 {
        Some(ValidationError::EmptyMessage)
    } else if m > MAX_MESSAGE_CHARS {
        Some(ValidationError::MessageTooLong { len: m as usize })
    } else if e.tags is Some && e.tags->0@.len() > MAX_TAGS {
        Some(ValidationError::TooManyTags { count: e.tags->0@.len() as usize })
    } else if e.tags is Some && first_long_tag(e.tags->0@, 0) is Some {
        let i = first_long_tag(e.tags->0@, 0)->0;
        Some(ValidationError::TagTooLong { index: i as usize, len: e.tags->0@[i as int]@.len() as usize })
    } else if e.step_index is Some && e.step_index->0 > MAX_STEP_INDEX {
        Some(ValidationError::StepIndexOutOfRange { step: e.step_index->0 })
    } else {
        first_long_field(e, 0)
    }
}

pub open spec fn validation_result(e: LogEntry) -> Result<(), ValidationError> {
    match first_violation(e) {
        Some(v) => Err(v),
        None => Ok(()),
    }
}

fn checked_field(i: usize) -> (r: TextField)
    requires
        i < checked_fields().len(),
    ensures
        r == checked_fields()[i as int],
{
    match i {
        0 => TextField::UserId,
        1 => TextField::SessionId,
        2 => TextField::RequestId,
        3 => TextField::ErrorName,
        4 => TextField::ErrorStack,
        5 => TextField::FlowId,
        6 => TextField::Dataset,
        7 => TextField::IpAddress,
        _ => TextField::Country,
    }
}

fn field_ref(e: &LogEntry, f: TextField) -> (r: &Option<String>)
    ensures
        *r == field_value(*e, f),
{
    match f {
        TextField::UserId => &e.user_id,
        TextField::SessionId => &e.session_id,
        TextField::RequestId => &e.request_id,
        TextField::ErrorName => &e.error_name,
        TextField::ErrorStack => &e.error_stack,
        TextField::FlowId => &e.flow_id,
        TextField::Dataset => &e.dataset,
        TextField::IpAddress => &e.ip_address,
        TextField::Country => &e.country,
    }
}

fn opt_char_len(o: &Option<String>) -> (r: usize)
    ensures
        r as nat == text_len(*o),
{
    match o {
        Some(s) => s.as_str().unicode_len(),
        None => 0,
    }
}

/// Checks a record against the field limits; the first broken rule is reported.
pub fn validate_entry(entry: &LogEntry) -> (r: Result<(), ValidationError>)
    ensures
        r == validation_result(*entry),
{
    let m = entry.message.as_str().unicode_len();
    if m == 0 {
        return Err(ValidationError::EmptyMessage);
    }
    if m > MAX_MESSAGE_CHARS {
        return Err(ValidationError::MessageTooLong { len: m });
    }
    if let Some(tags) = &entry.tags {
        if tags.len() > MAX_TAGS {
            return Err(ValidationError::TooManyTags { count: tags.len() });
        }
        let mut i: usize = 0;
        while i < tags.len()
            invariant
                i <= tags@.len(),
                entry.tags == Some(*tags),
                m as nat == entry.message@.len(),
                0 < m <= MAX_MESSAGE_CHARS,
                tags@.len() <= MAX_TAGS,
                first_long_tag(tags@, 0) == first_long_tag(tags@, i as nat),
            decreases tags@.len() - i,
        {
            let n = tags[i].as_str().unicode_len();
            if n > MAX_TAG_CHARS {
                assert(first_long_tag(tags@, i as nat) == Some(i as nat));
                return Err(ValidationError::TagTooLong { index: i, len: n });
            }
            i = i + 1;
        }
    }
    if let Some(step) = entry.step_index {
        if step > MAX_STEP_INDEX {
            return Err(ValidationError::StepIndexOutOfRange { step });
        }
    }
    let mut k: usize = 0;
    while k < 9
        invariant
            k <= 9,
            first_violation(*entry) == first_long_field(*entry, k as nat),
        decreases 9 - k,
    {
        let f = checked_field(k);
        let n = opt_char_len(field_ref(entry, f));
        if n > f.limit() {
            return Err(ValidationError::FieldTooLong { field: f, len: n });
        }
        k = k + 1;
    }
    Ok(())
}

/// The message, tag and step rules that every record must meet before its
/// string fields are looked at.
pub open spec fn head_rules_hold(e: LogEntry) -> bool {
    &&& 1 <= e.message@.len() <= MAX_MESSAGE_CHARS
    &&& e.tags is Some ==> e.tags->0@.len() <= MAX_TAGS
        && forall|i: int| 0 <= i < e.tags->0@.len() ==> (#[trigger] e.tags->0@[i])@.len() <= MAX_TAG_CHARS
    &&& e.step_index is Some ==> e.step_index->0 <= MAX_STEP_INDEX
}

proof fn lemma_first_long_tag_none(tags: Seq<String>, i: nat)
    requires
        forall|j: int| i <= j < tags.len() ==> (#[trigger] tags[j])@.len() <= MAX_TAG_CHARS,
    ensures
        first_long_tag(tags, i) is None,
    decreases tags.len() - i,
{
    if i < tags.len() {
        lemma_first_long_tag_none(tags, i + 1);
    }
}

proof fn lemma_first_long_tag_at(tags: Seq<String>, i: nat, k: nat)
    requires
        i <= k < tags.len(),
        tags[k as int]@.len() > MAX_TAG_CHARS,
        forall|j: int| i <= j < k ==> (#[trigger] tags[j])@.len() <= MAX_TAG_CHARS,
    ensures
        first_long_tag(tags, i) == Some(k),
    decreases k - i,
{
    if i < k {
        lemma_first_long_tag_at(tags, i + 1, k);
    }
}

proof fn lemma_first_long_field_at(e: LogEntry, i: nat, k: nat)
    requires
        i <= k < checked_fields().len(),
        text_len(field_value(e, checked_fields()[k as int])) > field_limit(checked_fields()[k as int]),
        forall|j: int| i <= j < k ==>
            text_len(field_value(e, #[trigger] checked_fields()[j])) <= field_limit(checked_fields()[j]),
    ensures
        first_long_field(e, i) == Some(ValidationError::FieldTooLong {
            field: checked_fields()[k as int],
            len: text_len(field_value(e, checked_fields()[k as int])) as usize,
        }),
    decreases k - i,
{
    if i < k {
        lemma_first_long_field_at(e, i + 1, k);
    }
}

proof fn lemma_first_long_field_kind(e: LogEntry, i: nat)
    ensures
        first_long_field(e, i) is Some ==> first_long_field(e, i)->0 is FieldTooLong,
    decreases checked_fields().len() - i,
{
    if i < checked_fields().len() {
        lemma_first_long_field_kind(e, i + 1);
    }
}

/// An empty message, or one over 10000 characters, is refused before any
/// other check, with a text that starts with "message"; a message of 1 to
/// 10000 characters never fails on its message.
pub proof fn lemma_message_rule(e: LogEntry)
    ensures
        e.message@.len() == 0 ==> validation_result(e) == Err::<(), ValidationError>(ValidationError::EmptyMessage),
        e.message@.len() > MAX_MESSAGE_CHARS ==> validation_result(e) == Err::<(), ValidationError>(
            ValidationError::MessageTooLong { len: e.message@.len() as usize },
        ),
        validation_text(ValidationError::EmptyMessage).take(7) == "message"@,
        forall|n: usize| validation_text(ValidationError::MessageTooLong { len: n }).take(7) == "message"@,
        1 <= e.message@.len() <= MAX_MESSAGE_CHARS ==> !(first_violation(e) matches Some(
            ValidationError::EmptyMessage | ValidationError::MessageTooLong { .. },
        )),
{
    reveal_strlit("message");
    reveal_strlit("message must not be empty");
    reveal_strlit("message exceeds 10000 characters: ");
    lemma_first_long_field_kind(e, 0);
    assert forall|n: usize| validation_text(ValidationError::MessageTooLong { len: n }).take(7) == "message"@ by {
        assert(validation_text(ValidationError::MessageTooLong { len: n }).take(7)
            =~= "message exceeds 10000 characters: "@.take(7));
    }
    assert(validation_text(ValidationError::EmptyMessage).take(7) =~= "message"@);
}

/// With a valid message: more than 20 tags are refused; otherwise the first
/// tag over 50 characters is refused, by its index; tags within both limits
/// never fail on tags.
pub proof fn lemma_tag_rule(e: LogEntry, k: nat)
    requires
        1 <= e.message@.len() <= MAX_MESSAGE_CHARS,
        e.tags is Some,
    ensures
        e.tags->0@.len() > MAX_TAGS ==> validation_result(e) == Err::<(), ValidationError>(
            ValidationError::TooManyTags { count: e.tags->0@.len() as usize },
        ),
        e.tags->0@.len() <= MAX_TAGS && k < e.tags->0@.len() && e.tags->0@[k as int]@.len() > MAX_TAG_CHARS
            && (forall|j: int| 0 <= j < k ==> (#[trigger] e.tags->0@[j])@.len() <= MAX_TAG_CHARS)
            ==> validation_result(e) == Err::<(), ValidationError>(ValidationError::TagTooLong {
                index: k as usize,
                len: e.tags->0@[k as int]@.len() as usize,
            }),
        e.tags->0@.len() <= MAX_TAGS
            && (forall|j: int| 0 <= j < e.tags->0@.len() ==> (#[trigger] e.tags->0@[j])@.len() <= MAX_TAG_CHARS)
            ==> !(first_violation(e) matches Some(
                ValidationError::TooManyTags { .. } | ValidationError::TagTooLong { .. },
            )),
{
    let tags = e.tags->0@;
    lemma_first_long_field_kind(e, 0);
    if tags.len() <= MAX_TAGS && k < tags.len() && tags[k as int]@.len() > MAX_TAG_CHARS
        && (forall|j: int| 0 <= j < k ==> (#[trigger] tags[j])@.len() <= MAX_TAG_CHARS) {
        lemma_first_long_tag_at(tags, 0, k);
    }
    if tags.len() <= MAX_TAGS && (forall|j: int| 0 <= j < tags.len() ==> (#[trigger] tags[j])@.len() <= MAX_TAG_CHARS) {
        lemma_first_long_tag_none(tags, 0);
    }
}

/// Once message and tags are valid, a step index above 1000 is refused and
/// one from 0 to 1000 leaves the verdict to the string fields.
pub proof fn lemma_step_rule(e: LogEntry)
    requires
        1 <= e.message@.len() <= MAX_MESSAGE_CHARS,
        e.tags is Some ==> e.tags->0@.len() <= MAX_TAGS
            && forall|i: int| 0 <= i < e.tags->0@.len() ==> (#[trigger] e.tags->0@[i])@.len() <= MAX_TAG_CHARS,
    ensures
        e.step_index is Some && e.step_index->0 > MAX_STEP_INDEX ==> validation_result(e)
            == Err::<(), ValidationError>(ValidationError::StepIndexOutOfRange { step: e.step_index->0 }),
        (e.step_index is None || e.step_index->0 <= MAX_STEP_INDEX) ==> first_violation(e) == first_long_field(e, 0),
{
    if e.tags is Some {
        lemma_first_long_tag_none(e.tags->0@, 0);
    }
}

/// Once message, tags and step are valid, the first string field over its
/// cap is refused, and the text names the field and its cap.
pub proof fn lemma_field_rule(e: LogEntry, k: nat)
    requires
        head_rules_hold(e),
        k < checked_fields().len(),
        text_len(field_value(e, checked_fields()[k as int])) > field_limit(checked_fields()[k as int]),
        forall|j: int| 0 <= j < k ==>
            text_len(field_value(e, #[trigger] checked_fields()[j])) <= field_limit(checked_fields()[j]),
    ensures
        validation_result(e) == Err::<(), ValidationError>(ValidationError::FieldTooLong {
            field: checked_fields()[k as int],
            len: text_len(field_value(e, checked_fields()[k as int])) as usize,
        }),
        ({
            let f = checked_fields()[k as int];
            let prefix = field_name(f) + " exceeds "@ + decimal(field_limit(f));
            validation_text(validation_result(e)->Err_0).take(prefix.len() as int) == prefix
        }),
{
    if e.tags is Some {
        lemma_first_long_tag_none(e.tags->0@, 0);
    }
    lemma_first_long_field_at(e, 0, k);
    let f = checked_fields()[k as int];
    let prefix = field_name(f) + " exceeds "@ + decimal(field_limit(f));
    let v = validation_result(e)->Err_0;
    assert(validation_text(v) =~= prefix + " characters: "@
        + decimal(text_len(field_value(e, f)) as usize as nat));
    assert(validation_text(v).take(prefix.len() as int) =~= prefix);
}

/// A record that meets every rule passes.
pub proof fn lemma_valid_passes(e: LogEntry)
    requires
        head_rules_hold(e),
        forall|j: int| 0 <= j < checked_fields().len() ==>
            text_len(field_value(e, #[trigger] checked_fields()[j])) <= field_limit(checked_fields()[j]),
    ensures
        validation_result(e) == Ok::<(), ValidationError>(()),
{
    if e.tags is Some {
        lemma_first_long_tag_none(e.tags->0@, 0);
    }
    lemma_no_long_field(e, 0);
}

proof fn lemma_no_long_field(e: LogEntry, i: nat)
    requires
        forall|j: int| 0 <= j < checked_fields().len() ==>
            text_len(field_value(e, #[trigger] checked_fields()[j])) <= field_limit(checked_fields()[j]),
    ensures
        first_long_field(e, i) is None,
    decreases checked_fields().len() - i,
{
    if i < checked_fields().len() {
        lemma_no_long_field(e, i + 1);
    }
}

} // verus!
