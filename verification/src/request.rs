//! The form payload that carries one paste to the service: a mapping from
//! field name to value, checked before it exists.

use crate::attributes::{ExpirationDate, VisibilityLevel};
use crate::error::{ErrorView, PastebinError};
use crate::text::{byte_len, lemma_byte_len_zero, str_eq};
use vstd::prelude::*;

verus! {

/// The largest content, in bytes, that a paste may hold.
pub const MAX_PASTE_BYTES: usize = 512000;

/// Name of the field that selects the operation.
pub const FIELD_OPTION: &'static str = "api_option";

/// Name of the field that carries the credential.
pub const FIELD_DEV_KEY: &'static str = "api_dev_key";

/// Name of the field that carries the content.
pub const FIELD_CODE: &'static str = "api_paste_code";

/// Name of the field that carries the visibility.
pub const FIELD_PRIVATE: &'static str = "api_paste_private";

/// Name of the field that carries the paste's name.
pub const FIELD_NAME: &'static str = "api_paste_name";

/// Name of the field that carries the lifetime.
pub const FIELD_EXPIRE_DATE: &'static str = "api_paste_expire_date";

/// Name of the field that carries the syntax identifier.
pub const FIELD_FORMAT: &'static str = "api_paste_format";

/// Value of the operation field for creating a paste.
pub const OPTION_PASTE: &'static str = "paste";

/// A field name or value as contracts speak of it.
pub type Text = Seq<char>;

/// The seven field names differ from one another.
pub proof fn lemma_field_names_differ()
    ensures
        FIELD_OPTION@ != FIELD_DEV_KEY@,
        FIELD_OPTION@ != FIELD_CODE@,
        FIELD_OPTION@ != FIELD_PRIVATE@,
        FIELD_OPTION@ != FIELD_NAME@,
        FIELD_OPTION@ != FIELD_EXPIRE_DATE@,
        FIELD_OPTION@ != FIELD_FORMAT@,
        FIELD_DEV_KEY@ != FIELD_CODE@,
        FIELD_DEV_KEY@ != FIELD_PRIVATE@,
        FIELD_DEV_KEY@ != FIELD_NAME@,
        FIELD_DEV_KEY@ != FIELD_EXPIRE_DATE@,
        FIELD_DEV_KEY@ != FIELD_FORMAT@,
        FIELD_CODE@ != FIELD_PRIVATE@,
        FIELD_CODE@ != FIELD_NAME@,
        FIELD_CODE@ != FIELD_EXPIRE_DATE@,
        FIELD_CODE@ != FIELD_FORMAT@,
        FIELD_PRIVATE@ != FIELD_NAME@,
        FIELD_PRIVATE@ != FIELD_EXPIRE_DATE@,
        FIELD_PRIVATE@ != FIELD_FORMAT@,
        FIELD_NAME@ != FIELD_EXPIRE_DATE@,
        FIELD_NAME@ != FIELD_FORMAT@,
        FIELD_EXPIRE_DATE@ != FIELD_FORMAT@,
{
    reveal_strlit("api_option");
    reveal_strlit("api_dev_key");
    reveal_strlit("api_paste_code");
    reveal_strlit("api_paste_private");
    reveal_strlit("api_paste_name");
    reveal_strlit("api_paste_expire_date");
    reveal_strlit("api_paste_format");
    assert(FIELD_OPTION@.len() == 10);
    assert(FIELD_DEV_KEY@.len() == 11);
    assert(FIELD_CODE@.len() == 14 && FIELD_CODE@[10] == 'c');
    assert(FIELD_PRIVATE@.len() == 17);
    assert(FIELD_NAME@.len() == 14 && FIELD_NAME@[10] == 'n');
    assert(FIELD_EXPIRE_DATE@.len() == 21);
    assert(FIELD_FORMAT@.len() == 16);
}

/// Whether `name` is one of the seven fields that the service reads.
pub open spec fn known_field(name: Text) -> bool {
    ||| name == FIELD_OPTION@
    ||| name == FIELD_DEV_KEY@
    ||| name == FIELD_CODE@
    ||| optional_field(name)
}

/// Whether `name` is one of the four fields that a request may leave out.
pub open spec fn optional_field(name: Text) -> bool {
    ||| name == FIELD_PRIVATE@
    ||| name == FIELD_NAME@
    ||| name == FIELD_EXPIRE_DATE@
    ||| name == FIELD_FORMAT@
}

/// What every payload satisfies: it holds the operation, a credential and
/// content of an accepted size, and beyond these only fields that the service
/// reads.
pub open spec fn valid_payload(fields: Map<Text, Text>) -> bool {
    &&& fields.dom().finite()
    &&& forall|name: Text| fields.contains_key(name) ==> known_field(name)
    &&& fields.contains_key(FIELD_OPTION@) && fields[FIELD_OPTION@] == OPTION_PASTE@
    &&& fields.contains_key(FIELD_DEV_KEY@)
    &&& fields.contains_key(FIELD_CODE@)
    &&& 0 < byte_len(fields[FIELD_CODE@]) <= MAX_PASTE_BYTES
}

/// The payload for a paste: the three mandatory fields, and each optional
/// field exactly when its attribute is supplied, with the attribute's wire
/// encoding as the value.
pub open spec fn payload(
    api_key: Text,
    text: Text,
    paste_name: Option<Text>,
    visibility: Option<VisibilityLevel>,
    format: Option<Text>,
    expire_date: Option<ExpirationDate>,
) -> Map<Text, Text> {
    Map::new(
        |name: Text|
            {
                ||| name == FIELD_OPTION@
                ||| name == FIELD_DEV_KEY@
                ||| name == FIELD_CODE@
                ||| name == FIELD_PRIVATE@ && visibility is Some
                ||| name == FIELD_NAME@ && paste_name is Some
                ||| name == FIELD_EXPIRE_DATE@ && expire_date is Some
                ||| name == FIELD_FORMAT@ && format is Some
            },
        |name: Text|
            if name == FIELD_OPTION@ {
                OPTION_PASTE@
            } else if name == FIELD_DEV_KEY@ {
                api_key
            } else if name == FIELD_CODE@ {
                text
            } else if name == FIELD_PRIVATE@ {
                visibility.unwrap().wire_code()
            } else if name == FIELD_NAME@ {
                paste_name.unwrap()
            } else if name == FIELD_EXPIRE_DATE@ {
                expire_date.unwrap().wire_code()
            } else {
                format.unwrap()
            },
    )
}

/// What building a request gives: the content is checked first, too large
/// before empty, and only then is there a payload.
pub open spec fn checked_payload(
    api_key: Text,
    text: Text,
    paste_name: Option<Text>,
    visibility: Option<VisibilityLevel>,
    format: Option<Text>,
    expire_date: Option<ExpirationDate>,
) -> Result<Map<Text, Text>, ErrorView> {
    if byte_len(text) > MAX_PASTE_BYTES {
        Err(ErrorView::PasteTooBig)
    } else if byte_len(text) == 0 {
        Err(ErrorView::EmptyPasteContent)
    } else {
        Ok(payload(api_key, text, paste_name, visibility, format, expire_date))
    }
}

/// Empty content is refused as empty, whatever the credential and the
/// attributes are, and leaves no payload to send.
pub proof fn lemma_empty_content_refused(
    api_key: Text,
    text: Text,
    paste_name: Option<Text>,
    visibility: Option<VisibilityLevel>,
    format: Option<Text>,
    expire_date: Option<ExpirationDate>,
)
    requires
        text.len() == 0,
    ensures
        byte_len(text) == 0,
        checked_payload(api_key, text, paste_name, visibility, format, expire_date) == Err::<
            Map<Text, Text>,
            ErrorView,
        >(ErrorView::EmptyPasteContent),
{
    lemma_byte_len_zero(text);
}

/// Content over the size limit is refused as too big, whatever the
/// credential and the attributes are, and leaves no payload to send.
pub proof fn lemma_oversized_content_refused(
    api_key: Text,
    text: Text,
    paste_name: Option<Text>,
    visibility: Option<VisibilityLevel>,
    format: Option<Text>,
    expire_date: Option<ExpirationDate>,
)
    requires
        byte_len(text) > MAX_PASTE_BYTES,
    ensures
        checked_payload(api_key, text, paste_name, visibility, format, expire_date) == Err::<
            Map<Text, Text>,
            ErrorView,
        >(ErrorView::PasteTooBig),
{
}

/// Content of an accepted size is in the payload under the content field,
/// verbatim, beside the operation and the credential; and such a payload is
/// valid.
pub proof fn lemma_payload_carries_content(
    api_key: Text,
    text: Text,
    paste_name: Option<Text>,
    visibility: Option<VisibilityLevel>,
    format: Option<Text>,
    expire_date: Option<ExpirationDate>,
)
    requires
        0 < byte_len(text) <= MAX_PASTE_BYTES,
    ensures
        checked_payload(api_key, text, paste_name, visibility, format, expire_date) == Ok::<
            Map<Text, Text>,
            ErrorView,
        >(payload(api_key, text, paste_name, visibility, format, expire_date)),
        payload(api_key, text, paste_name, visibility, format, expire_date).contains_key(
            FIELD_CODE@,
        ),
        payload(api_key, text, paste_name, visibility, format, expire_date)[FIELD_CODE@] == text,
        payload(api_key, text, paste_name, visibility, format, expire_date)[FIELD_DEV_KEY@]
            == api_key,
        payload(api_key, text, paste_name, visibility, format, expire_date)[FIELD_OPTION@]
            == OPTION_PASTE@,
        valid_payload(payload(api_key, text, paste_name, visibility, format, expire_date)),
{
    lemma_field_names_differ();
    let fields = payload(api_key, text, paste_name, visibility, format, expire_date);
    let all = Set::<Text>::empty().insert(FIELD_OPTION@).insert(FIELD_DEV_KEY@).insert(
        FIELD_CODE@,
    ).insert(FIELD_PRIVATE@).insert(FIELD_NAME@).insert(FIELD_EXPIRE_DATE@).insert(FIELD_FORMAT@);
    assert(fields.dom().subset_of(all));
    vstd::set_lib::lemma_len_subset(fields.dom(), all);
}

/// Each optional field is in the payload exactly when its attribute is
/// supplied, and then holds the attribute's wire encoding: the visibility's
/// digit, the name as given, the lifetime's short code, the syntax identifier
/// as given. No other field is in the payload.
pub proof fn lemma_payload_optional_fields(
    api_key: Text,
    text: Text,
    paste_name: Option<Text>,
    visibility: Option<VisibilityLevel>,
    format: Option<Text>,
    expire_date: Option<ExpirationDate>,
)
    ensures
        ({
            let fields = payload(api_key, text, paste_name, visibility, format, expire_date);
            &&& fields.contains_key(FIELD_PRIVATE@) <==> visibility is Some
            &&& visibility matches Some(level) ==> fields[FIELD_PRIVATE@] == level.wire_code()
            &&& fields.contains_key(FIELD_NAME@) <==> paste_name is Some
            &&& paste_name matches Some(name) ==> fields[FIELD_NAME@] == name
            &&& fields.contains_key(FIELD_EXPIRE_DATE@) <==> expire_date is Some
            &&& expire_date matches Some(date) ==> fields[FIELD_EXPIRE_DATE@] == date.wire_code()
            &&& fields.contains_key(FIELD_FORMAT@) <==> format is Some
            &&& format matches Some(syntax) ==> fields[FIELD_FORMAT@] == syntax
            &&& forall|name: Text| fields.contains_key(name) ==> known_field(name)
        }),
{
    lemma_field_names_differ();
}

/// An optional string as contracts speak of it.
pub open spec fn text_of(value: Option<String>) -> Option<Text> {
    match value {
        Some(s) => Some(s@),
        None => None,
    }
}

/// A list of (name, value) strings as contracts speak of it.
pub open spec fn text_pairs(fields: Seq<(String, String)>) -> Seq<(Text, Text)> {
    Seq::new(fields.len(), |i: int| (fields[i].0@, fields[i].1@))
}

/// Whether some pair of the list carries `name`.
pub open spec fn has_name(pairs: Seq<(Text, Text)>, name: Text) -> bool {
    exists|i: int| 0 <= i < pairs.len() && (#[trigger] pairs[i]).0 == name
}

/// Whether no name occurs twice in the list.
pub open spec fn distinct_names(pairs: Seq<(Text, Text)>) -> bool {
    forall|i: int, j: int|
        0 <= i < j < pairs.len() ==> (#[trigger] pairs[i]).0 != (#[trigger] pairs[j]).0
}

/// The mapping that a list of pairs spells out, a later pair overriding an
/// earlier one of the same name.
pub open spec fn map_of(pairs: Seq<(Text, Text)>) -> Map<Text, Text>
    decreases pairs.len(),
{
    if pairs.len() == 0 {
        Map::empty()
    } else {
        map_of(pairs.drop_last()).insert(pairs.last().0, pairs.last().1)
    }
}

/// Appending a pair to the list inserts it into the mapping.
pub proof fn lemma_map_of_push(pairs: Seq<(Text, Text)>, name: Text, value: Text)
    ensures
        map_of(pairs.push((name, value))) == map_of(pairs).insert(name, value),
{
    assert(pairs.push((name, value)).drop_last() =~= pairs);
}

/// The mapping holds exactly the names of the list, so finitely many.
pub proof fn lemma_map_of_names(pairs: Seq<(Text, Text)>, name: Text)
    ensures
        map_of(pairs).contains_key(name) <==> has_name(pairs, name),
        map_of(pairs).dom().finite(),
    decreases pairs.len(),
{
    if pairs.len() > 0 {
        let init = pairs.drop_last();
        lemma_map_of_names(init, name);
        if has_name(init, name) {
            let i = choose|i: int| 0 <= i < init.len() && (#[trigger] init[i]).0 == name;
            assert(pairs[i].0 == name);
        }
        if has_name(pairs, name) && name != pairs.last().0 {
            let i = choose|i: int| 0 <= i < pairs.len() && (#[trigger] pairs[i]).0 == name;
            assert(init[i].0 == name);
        }
        assert(pairs[pairs.len() - 1] == pairs.last());
    }
}

/// Where no name occurs twice, each pair's value is what the mapping gives
/// for its name.
pub proof fn lemma_map_of_value(pairs: Seq<(Text, Text)>, i: int)
    requires
        distinct_names(pairs),
        0 <= i < pairs.len(),
    ensures
        map_of(pairs).contains_key(pairs[i].0),
        map_of(pairs)[pairs[i].0] == pairs[i].1,
    decreases pairs.len(),
{
    let init = pairs.drop_last();
    if i < pairs.len() - 1 {
        assert forall|a: int, b: int| 0 <= a < b < init.len() implies (#[trigger] init[a]).0 != (
        #[trigger] init[b]).0 by {
            assert(pairs[a].0 != pairs[b].0);
        }
        lemma_map_of_value(init, i);
        assert(init[i] == pairs[i]);
        assert(pairs[i].0 != pairs[pairs.len() - 1].0);
    }
}

/// Where no name occurs twice, the mapping has as many fields as the list
/// has pairs.
pub proof fn lemma_map_of_len(pairs: Seq<(Text, Text)>)
    requires
        distinct_names(pairs),
    ensures
        map_of(pairs).dom().finite(),
        map_of(pairs).len() == pairs.len(),
    decreases pairs.len(),
{
    if pairs.len() > 0 {
        let init = pairs.drop_last();
        let last = pairs.last();
        assert forall|a: int, b: int| 0 <= a < b < init.len() implies (#[trigger] init[a]).0 != (
        #[trigger] init[b]).0 by {
            assert(pairs[a].0 != pairs[b].0);
        }
        lemma_map_of_len(init);
        lemma_map_of_names(init, last.0);
        if has_name(init, last.0) {
            let i = choose|i: int| 0 <= i < init.len() && (#[trigger] init[i]).0 == last.0;
            assert(pairs[i].0 != pairs[pairs.len() - 1].0);
        }
        assert(map_of(pairs).dom() =~= map_of(init).dom().insert(last.0));
    }
}

/// The form payload of one paste. A value of this type exists only for
/// content of an accepted size, and holds each field name once.
#[derive(Debug)]
pub struct PasteRequest {
    fields: Vec<(String, String)>,
}

impl View for PasteRequest {
    type V = Map<Text, Text>;

    /// The mapping from field name to value.
    open spec fn view(&self) -> Map<Text, Text> {
        map_of(self.entries())
    }
}

impl PasteRequest {
    /// The fields in the order in which they were set.
    pub closed spec fn entries(&self) -> Seq<(Text, Text)> {
        text_pairs(self.fields@)
    }

    #[verifier::type_invariant]
    spec fn well_formed(&self) -> bool {
        distinct_names(self.entries()) && valid_payload(map_of(self.entries()))
    }

    /// The request with the mandatory fields alone.
    fn required(api_key: String, text: String) -> (r: PasteRequest)
        requires
            0 < byte_len(text@) <= MAX_PASTE_BYTES,
        ensures
            r@ == Map::<Text, Text>::empty().insert(FIELD_OPTION@, OPTION_PASTE@).insert(
                FIELD_DEV_KEY@,
                api_key@,
            ).insert(FIELD_CODE@, text@),
    {
        let mut fields: Vec<(String, String)> = Vec::new();
        fields.push((FIELD_OPTION.to_owned(), OPTION_PASTE.to_owned()));
        fields.push((FIELD_DEV_KEY.to_owned(), api_key));
        fields.push((FIELD_CODE.to_owned(), text));
        proof {
            let p0 = Seq::<(Text, Text)>::empty();
            let p1 = p0.push((FIELD_OPTION@, OPTION_PASTE@));
            let p2 = p1.push((FIELD_DEV_KEY@, api_key@));
            let p3 = p2.push((FIELD_CODE@, text@));
            assert(text_pairs(fields@) =~= p3);
            lemma_map_of_push(p0, FIELD_OPTION@, OPTION_PASTE@);
            lemma_map_of_push(p1, FIELD_DEV_KEY@, api_key@);
            lemma_map_of_push(p2, FIELD_CODE@, text@);
            lemma_field_names_differ();
            lemma_map_of_names(p3, FIELD_OPTION@);
        }
        PasteRequest { fields }
    }

    /// The request with one more optional field.
    fn with(self, name: &'static str, value: String) -> (r: PasteRequest)
        requires
            optional_field(name@),
            !self@.contains_key(name@),
        ensures
            r@ == self@.insert(name@, value@),
    {
        let ghost before = self.entries();
        proof {
            use_type_invariant(&self);
            lemma_map_of_names(before, name@);
            lemma_map_of_push(before, name@, value@);
            lemma_field_names_differ();
        }
        let mut fields = self.fields;
        fields.push((name.to_owned(), value));
        proof {
            let after = before.push((name@, value@));
            assert(text_pairs(fields@) =~= after);
            assert forall|i: int, j: int| 0 <= i < j < after.len() implies (#[trigger] after[i]).0
                != (#[trigger] after[j]).0 by {
                if j < before.len() {
                    assert(before[i].0 != before[j].0);
                } else {
                    assert(before[i].0 != name@);
                }
            }
        }
        PasteRequest { fields }
    }

    /// Builds the payload for a paste from the credential, the content and
    /// the attributes that were supplied. Content over the size limit is
    /// refused, then empty content; the attributes are not consulted before
    /// that. Values go in as they are.
    pub fn build(
        api_key: String,
        text: String,
        paste_name: Option<String>,
        visibility: Option<VisibilityLevel>,
        format: Option<String>,
        expire_date: Option<ExpirationDate>,
    ) -> (r: Result<PasteRequest, PastebinError>)
        ensures
            match checked_payload(
                api_key@,
                text@,
                text_of(paste_name),
                visibility,
                text_of(format),
                expire_date,
            ) {
                Ok(fields) => r matches Ok(request) && request@ == fields,
                Err(error) => r matches Err(e) && e@ == error,
            },
    {
        let size = text.as_str().as_bytes().len();
        if size > MAX_PASTE_BYTES {
            return Err(PastebinError::PasteTooBig);
        }
        if size == 0 {
            return Err(PastebinError::EmptyPasteContent);
        }
        proof {
            lemma_field_names_differ();
        }
        let ghost expected = payload(
            api_key@,
            text@,
            text_of(paste_name),
            visibility,
            text_of(format),
            expire_date,
        );
        let mut request = PasteRequest::required(api_key, text);
        if let Some(level) = visibility {
            request = request.with(FIELD_PRIVATE, level.encode().to_owned());
        }
        if let Some(name) = paste_name {
            request = request.with(FIELD_NAME, name);
        }
        if let Some(date) = expire_date {
            request = request.with(FIELD_EXPIRE_DATE, date.inspect().to_owned());
        }
        if let Some(syntax) = format {
            request = request.with(FIELD_FORMAT, syntax);
        }
        assert(request@ =~= expected);
        Ok(request)
    }

    /// The value of the field `name`, if the request holds it.
    pub fn get(&self, name: &str) -> (r: Option<&str>)
        ensures
            match r {
                Some(value) => self@.contains_key(name@) && self@[name@] == value@,
                None => !self@.contains_key(name@),
            },
    {
        proof {
            use_type_invariant(self);
            lemma_map_of_names(self.entries(), name@);
        }
        let mut i: usize = 0;
        while i < self.fields.len()
            invariant
                i <= self.fields.len(),
                distinct_names(self.entries()),
                self.entries() == text_pairs(self.fields@),
                forall|j: int| 0 <= j < i ==> (#[trigger] self.entries()[j]).0 != name@,
            decreases self.fields.len() - i,
        {
            if str_eq(self.fields[i].0.as_str(), name) {
                proof {
                    lemma_map_of_value(self.entries(), i as int);
                }
                return Some(self.fields[i].1.as_str());
            }
            i += 1;
        }
        None
    }

    /// How many fields the request holds.
    pub fn len(&self) -> (r: usize)
        ensures
            r == self@.len(),
            r >= 3,
    {
        proof {
            use_type_invariant(self);
            lemma_map_of_len(self.entries());
            lemma_field_names_differ();
            let rest = self@.dom().remove(FIELD_OPTION@).remove(FIELD_DEV_KEY@).remove(FIELD_CODE@);
            assert(self@.dom().len() == rest.len() + 3);
        }
        self.fields.len()
    }

    /// Gives up the request as a list of (name, value) pairs, each field
    /// once, for encoding as a form.
    pub fn into_pairs(self) -> (r: Vec<(String, String)>)
        ensures
            distinct_names(text_pairs(r@)),
            map_of(text_pairs(r@)) == self@,
            r@.len() == self@.len(),
            valid_payload(self@),
    {
        proof {
            use_type_invariant(&self);
            lemma_map_of_len(self.entries());
        }
        self.fields
    }
}

} // verus!
