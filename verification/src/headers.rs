//! HTTP header fields, held as plain values.
use crate::text;
use vstd::prelude::*;
use vstd::relations::*;
use vstd::string::*;

verus! {

/// One header field.
#[derive(Debug, PartialEq, Eq)]
pub struct Header {
    pub name: String,
    pub value: Vec<u8>,
}

pub ghost struct HeaderView {
    pub name: Seq<char>,
    pub value: Seq<u8>,
}

impl View for Header {
    type V = HeaderView;

    open spec fn view(&self) -> HeaderView {
        HeaderView { name: self.name@, value: self.value@ }
    }
}

pub open spec fn header_views(headers: Seq<Header>) -> Seq<HeaderView> {
    Seq::new(headers.len(), |i: int| headers[i]@)
}

pub open spec fn lower(c: char) -> char {
    if 'A' <= c <= 'Z' {
        (c as u32 + 32) as char
    } else {
        c
    }
}

/// A name with its ASCII letters in lower case.
pub open spec fn lowercase(s: Seq<char>) -> Seq<char> {
    Seq::new(s.len(), |i: int| lower(s[i]))
}

/// A field with its name in lower case.
pub open spec fn folded(h: HeaderView) -> HeaderView {
    HeaderView { name: lowercase(h.name), ..h }
}

/// Bytes as the characters with their numbers.
pub open spec fn letters(bytes: Seq<u8>) -> Seq<char> {
    Seq::new(bytes.len(), |i: int| bytes[i] as char)
}

/// Fields are ordered by name, and those of one name by value.
pub open spec fn not_behind(a: HeaderView, b: HeaderView) -> bool {
    ||| a == b
    ||| text::lt(a.name, b.name)
    ||| a.name == b.name && text::lt(letters(a.value), letters(b.value))
}

pub open spec fn field_order() -> spec_fn(HeaderView, HeaderView) -> bool {
    |a: HeaderView, b: HeaderView| not_behind(a, b)
}

proof fn letters_spell(a: Seq<u8>, b: Seq<u8>)
    requires
        letters(a) == letters(b),
    ensures
        a == b,
{
    assert(letters(a).len() == a.len() && letters(b).len() == b.len());
    assert forall|i: int| 0 <= i < a.len() implies a[i] == b[i] by {
        assert(letters(a)[i] == letters(b)[i]);
        assert(letters(a)[i] as u8 == a[i]);
        assert(letters(b)[i] as u8 == b[i]);
    }
    assert(a =~= b);
}

proof fn order_is_antisymmetric(a: HeaderView, b: HeaderView)
    requires
        not_behind(a, b),
        not_behind(b, a),
    ensures
        a == b,
{
    text::lt_irreflexive(a.name);
    text::lt_irreflexive(letters(a.value));
    if text::lt(a.name, b.name) {
        if text::lt(b.name, a.name) {
            text::lt_transitive(a.name, b.name, a.name);
        }
    } else if a != b && text::lt(letters(a.value), letters(b.value)) {
        if text::lt(letters(b.value), letters(a.value)) {
            text::lt_transitive(letters(a.value), letters(b.value), letters(a.value));
        }
    }
}

proof fn order_is_transitive(a: HeaderView, b: HeaderView, c: HeaderView)
    requires
        not_behind(a, b),
        not_behind(b, c),
    ensures
        not_behind(a, c),
{
    if a != b && b != c {
        if text::lt(a.name, b.name) && text::lt(b.name, c.name) {
            text::lt_transitive(a.name, b.name, c.name);
        }
        if text::lt(letters(a.value), letters(b.value)) && text::lt(
            letters(b.value),
            letters(c.value),
        ) {
            text::lt_transitive(letters(a.value), letters(b.value), letters(c.value));
        }
    }
}

proof fn order_is_total(a: HeaderView, b: HeaderView)
    ensures
        not_behind(a, b) || not_behind(b, a),
{
    text::lt_total(a.name, b.name);
    text::lt_total(letters(a.value), letters(b.value));
    if letters(a.value) == letters(b.value) {
        letters_spell(a.value, b.value);
    }
}

/// The order of fields is total.
pub proof fn fields_are_ordered()
    ensures
        total_ordering(field_order()),
{
    let r = field_order();
    assert(reflexive(r));
    assert forall|x: HeaderView, y: HeaderView| #[trigger] r(x, y) && #[trigger] r(y, x) implies x
        == y by {
        order_is_antisymmetric(x, y);
    }
    assert forall|x: HeaderView, y: HeaderView, z: HeaderView| #[trigger] r(x, y) && #[trigger] r(
        y,
        z,
    ) implies r(x, z) by {
        order_is_transitive(x, y, z);
    }
    assert forall|x: HeaderView, y: HeaderView| #[trigger] r(x, y) || #[trigger] r(y, x) by {
        order_is_total(x, y);
    }
}

pub open spec fn folded_all(headers: Seq<HeaderView>) -> Seq<HeaderView> {
    Seq::new(headers.len(), |i: int| folded(headers[i]))
}

/// The fields in their canonical order.
pub open spec fn sorted_fields(headers: Seq<HeaderView>) -> Seq<HeaderView> {
    folded_all(headers).sort_by(field_order())
}

/// One field with the lengths of its parts.
pub open spec fn field_bytes(h: HeaderView) -> Seq<u8> {
    let name = vstd::utf8::encode_utf8(h.name);
    vstd::utf8::encode_utf8(text::decimal(name.len())).push(58u8) + name.push(61u8)
        + vstd::utf8::encode_utf8(text::decimal(h.value.len())).push(58u8) + h.value.push(10u8)
}

pub open spec fn fields_bytes(fields: Seq<HeaderView>) -> Seq<u8>
    decreases fields.len(),
{
    if fields.len() == 0 {
        Seq::empty()
    } else {
        fields_bytes(fields.drop_last()) + field_bytes(fields.last())
    }
}

/// The bytes that stand for a set of fields, whatever order they came in.
pub open spec fn canonical(headers: Seq<HeaderView>) -> Seq<u8> {
    fields_bytes(sorted_fields(headers))
}

/// Two lists of the same fields have the same canonical bytes.
pub proof fn order_of_arrival_is_immaterial(a: Seq<HeaderView>, b: Seq<HeaderView>)
    requires
        folded_all(a).to_multiset() == folded_all(b).to_multiset(),
    ensures
        canonical(a) == canonical(b),
{
    fields_are_ordered();
    let x = folded_all(a);
    let y = folded_all(b);
    x.lemma_sort_by_ensures(field_order());
    y.lemma_sort_by_ensures(field_order());
    vstd::seq_lib::lemma_sorted_unique(
        x.sort_by(field_order()),
        y.sort_by(field_order()),
        field_order(),
    );
}

fn to_lower(c: char) -> (r: char)
    ensures
        r == lower(c),
{
    if 'A' <= c && c <= 'Z' {
        let code: u8 = c as u8;
        (code + 32u8) as char
    } else {
        c
    }
}

fn lower_name(s: &str) -> (r: String)
    ensures
        r@ == lowercase(s@),
{
    let chars = text::chars_of(s);
    let mut out = String::new();
    assert(out@ =~= lowercase(s@).take(0));
    for i in 0..chars.len()
        invariant
            chars@ == s@,
            out@ == lowercase(s@).take(i as int),
    {
        out.push(to_lower(chars[i]));
        assert(out@ =~= lowercase(s@).take(i + 1));
    }
    assert(lowercase(s@).take(chars@.len() as int) =~= lowercase(s@));
    out
}

fn fold(h: &Header) -> (r: Header)
    ensures
        r@ == folded(h@),
{
    Header { name: lower_name(h.name.as_str()), value: text::copy_bytes(h.value.as_slice()) }
}

fn bytes_less(a: &Vec<u8>, b: &Vec<u8>) -> (r: bool)
    ensures
        r == text::lt(letters(a@), letters(b@)),
{
    let mut i: usize = 0;
    let ghost x = letters(a@);
    let ghost y = letters(b@);
    assert(x.skip(0) =~= x && y.skip(0) =~= y);
    while i < a.len() && i < b.len() && a[i] == b[i]
        invariant
            i <= a@.len(),
            i <= b@.len(),
            x == letters(a@),
            y == letters(b@),
            text::lt(x, y) == text::lt(x.skip(i as int), y.skip(i as int)),
        decreases a@.len() - i,
    {
        let ghost s = x.skip(i as int);
        let ghost t = y.skip(i as int);
        assert(s.skip(1) =~= x.skip(i + 1));
        assert(t.skip(1) =~= y.skip(i + 1));
        assert(s[0] == t[0]);
        i += 1;
    }
    if i >= b.len() {
        return false;
    }
    if i >= a.len() {
        return true;
    }
    assert(x.skip(i as int)[0] == a@[i as int] as char);
    assert(y.skip(i as int)[0] == b@[i as int] as char);
    a[i] < b[i]
}

fn goes_before(a: &Header, b: &Header) -> (r: bool)
    ensures
        r ==> !not_behind(b@, a@) || a@ == b@,
        r ==> not_behind(a@, b@),
        !r ==> not_behind(b@, a@),
{
    proof {
        order_is_total(a@, b@);
        text::lt_irreflexive(a@.name);
        text::lt_irreflexive(letters(a@.value));
        if not_behind(a@, b@) && not_behind(b@, a@) {
            order_is_antisymmetric(a@, b@);
        }
    }
    if text::less(a.name.as_str(), b.name.as_str()) {
        return true;
    }
    text::same(a.name.as_str(), b.name.as_str()) && bytes_less(&a.value, &b.value)
}

fn insert_sorted(fields: &mut Vec<Header>, field: Header)
    requires
        sorted_by(header_views(old(fields)@), field_order()),
    ensures
        sorted_by(header_views(final(fields)@), field_order()),
        header_views(final(fields)@).to_multiset() == header_views(
            old(fields)@,
        ).to_multiset().insert(field@),
{
    let ghost before = header_views(fields@);
    let mut at: usize = fields.len();
    while at > 0 && goes_before(&field, &fields[at - 1])
        invariant
            at <= fields@.len(),
            header_views(fields@) == before,
            sorted_by(before, field_order()),
            forall|j: int| at <= j < fields@.len() ==> not_behind(field@, #[trigger] before[j]),
        decreases at,
    {
        assert(before[at - 1] == fields@[at - 1]@);
        at -= 1;
    }
    proof {
        let r = field_order();
        if at > 0 {
            assert(before[at - 1] == fields@[at - 1]@);
            assert(not_behind(before[at - 1], field@));
            assert forall|j: int| 0 <= j < at implies not_behind(#[trigger] before[j], field@) by {
                if j < at - 1 {
                    assert(r(before[j], before[at - 1]));
                    order_is_transitive(before[j], before[at - 1], field@);
                }
            }
        }
        vstd::seq_lib::to_multiset_insert(before, at as int, field@);
    }
    fields.insert(at, field);
    proof {
        let after = before.insert(at as int, field@);
        assert(header_views(fields@) =~= after);
        let r = field_order();
        assert forall|i: int, j: int| 0 <= i < j < after.len() implies #[trigger] r(
            after[i],
            after[j],
        ) by {
            if i < at && j < at {
                assert(r(before[i], before[j]));
            } else if i > at {
                assert(r(before[i - 1], before[j - 1]));
            } else if i < at && j > at {
                assert(r(before[i], before[j - 1]));
            } else if j == at {
                assert(not_behind(before[i], field@));
            } else {
                assert(not_behind(field@, before[j - 1]));
            }
        }
    }
}

fn sort_fields(headers: &Vec<Header>) -> (r: Vec<Header>)
    ensures
        header_views(r@) == sorted_fields(header_views(headers@)),
{
    let ghost all = folded_all(header_views(headers@));
    let mut out: Vec<Header> = Vec::new();
    assert(header_views(out@) =~= all.take(0));
    for i in 0..headers.len()
        invariant
            all == folded_all(header_views(headers@)),
            sorted_by(header_views(out@), field_order()),
            header_views(out@).to_multiset() == all.take(i as int).to_multiset(),
    {
        let field = fold(&headers[i]);
        let ghost before = all.take(i as int);
        assert(all.take(i + 1) =~= before.push(field@));
        proof {
            vstd::seq_lib::to_multiset_build(before, field@);
        }
        insert_sorted(&mut out, field);
    }
    proof {
        assert(all.take(headers@.len() as int) =~= all);
        fields_are_ordered();
        all.lemma_sort_by_ensures(field_order());
        vstd::seq_lib::lemma_sorted_unique(
            header_views(out@),
            all.sort_by(field_order()),
            field_order(),
        );
    }
    out
}

fn push_length(out: &mut Vec<u8>, length: usize, mark: u8)
    ensures
        final(out)@ == old(out)@ + vstd::utf8::encode_utf8(text::decimal(length as nat)).push(mark),
{
    let ghost before = out@;
    let mut digits = String::new();
    text::push_decimal(&mut digits, length as u64);
    assert(digits@ =~= text::decimal(length as nat));
    text::push_bytes(out, digits.as_str().as_bytes());
    out.push(mark);
    assert(out@ =~= before + vstd::utf8::encode_utf8(text::decimal(length as nat)).push(mark));
}

/// The bytes that stand for a set of fields, whatever order they came in.
pub fn canonical_headers(headers: &Vec<Header>) -> (r: Vec<u8>)
    ensures
        r@ == canonical(header_views(headers@)),
{
    let fields = sort_fields(headers);
    let ghost all = header_views(fields@);
    let mut out: Vec<u8> = Vec::new();
    assert(out@ =~= fields_bytes(all.take(0)));
    for i in 0..fields.len()
        invariant
            all == header_views(fields@),
            out@ == fields_bytes(all.take(i as int)),
    {
        let ghost longer = all.take(i + 1);
        assert(longer.drop_last() =~= all.take(i as int));
        let ghost before = out@;
        let field = &fields[i];
        let name = field.name.as_str().as_bytes();
        push_length(&mut out, name.len(), 58);
        text::push_bytes(&mut out, name);
        out.push(61);
        push_length(&mut out, field.value.len(), 58);
        text::push_bytes(&mut out, field.value.as_slice());
        out.push(10);
        assert(out@ =~= before + field_bytes(field@));
    }
    assert(all.take(fields@.len() as int) =~= all);
    out
}

/// A byte that a header value may hold.
pub open spec fn value_byte(b: u8) -> bool {
    (b >= 32 && b != 127) || b == 9
}

/// A byte of a header value that is text.
pub open spec fn text_byte(b: u8) -> bool {
    (b >= 32 && b < 127) || b == 9
}

/// `reqwest::header::HeaderValue::from_str` takes a text exactly if each of its bytes is a tab or
/// at least 32 and not 127.
#[verifier::external_body]
pub(crate) fn is_header_value(s: &str) -> (r: bool)
    ensures
        r == forall|i: int|
            0 <= i < vstd::utf8::encode_utf8(s@).len() ==> value_byte(
                #[trigger] vstd::utf8::encode_utf8(s@)[i],
            ),
{
    reqwest::header::HeaderValue::from_str(s).is_ok()
}

/// `reqwest::header::HeaderValue::to_str` gives the text of a value exactly if each of its bytes is
/// a tab or visible ASCII; each byte is then the character with its number.
#[verifier::external_body]
fn value_text(bytes: &[u8]) -> (r: Option<String>)
    ensures
        r is Some <==> forall|i: int| 0 <= i < bytes@.len() ==> text_byte(#[trigger] bytes@[i]),
        r matches Some(s) ==> s@ == letters(bytes@),
{
    reqwest::header::HeaderValue::from_bytes(bytes).ok()?.to_str().ok().map(str::to_owned)
}

/// The first field of a name.
pub open spec fn field(headers: Seq<HeaderView>, name: Seq<char>) -> Option<Seq<u8>>
    decreases headers.len(),
{
    if headers.len() == 0 {
        None
    } else if lowercase(headers[0].name) == name {
        Some(headers[0].value)
    } else {
        field(headers.skip(1), name)
    }
}

/// A value that can be shown: not empty, and without control characters.
pub open spec fn clean(bytes: Seq<u8>) -> bool {
    bytes.len() > 0 && forall|i: int| 0 <= i < bytes.len() ==> 32 <= #[trigger] bytes[i] < 127
}

/// The text of the first field of a name, where it can be shown.
pub open spec fn field_text(headers: Seq<HeaderView>, name: Seq<char>) -> Option<Seq<char>> {
    match field(headers, name) {
        Some(value) => if clean(value) {
            Some(letters(value))
        } else {
            None
        },
        None => None,
    }
}

fn has_tab(bytes: &Vec<u8>) -> (r: bool)
    ensures
        r == exists|i: int| 0 <= i < bytes@.len() && #[trigger] bytes@[i] == 9,
{
    for i in 0..bytes.len()
        invariant
            forall|j: int| 0 <= j < i ==> #[trigger] bytes@[j] != 9,
    {
        if bytes[i] == 9 {
            return true;
        }
    }
    false
}

/// The text of the first field of a name, where it can be shown.
pub fn header_text(headers: &Vec<Header>, name: &str) -> (r: Option<String>)
    ensures
        text::optional(r) == field_text(header_views(headers@), name@),
{
    let ghost all = header_views(headers@);
    assert(all.skip(0) =~= all);
    for i in 0..headers.len()
        invariant
            all == header_views(headers@),
            field(all, name@) == field(all.skip(i as int), name@),
    {
        let ghost rest = all.skip(i as int);
        assert(rest[0] == headers@[i as int]@);
        assert(rest.skip(1) =~= all.skip(i + 1));
        let folded_name = lower_name(headers[i].name.as_str());
        if text::same(folded_name.as_str(), name) {
            let value = &headers[i].value;
            if value.len() == 0 || has_tab(value) {
                return None;
            }
            return value_text(value.as_slice());
        }
    }
    None
}

/// A name keeps its length; capitals become the small letters 32 places on, and every other
/// character stays.
pub proof fn names_are_folded(name: Seq<char>)
    ensures
        lowercase(name).len() == name.len(),
        forall|i: int|
            0 <= i < name.len() ==> #[trigger] lowercase(name)[i] as int == if 'A' <= name[i]
                <= 'Z' {
                name[i] as int + 32
            } else {
                name[i] as int
            },
{
}

/// A field is the first one of its name, in whatever case the name was written.
pub proof fn the_first_field_counts(headers: Seq<HeaderView>, name: Seq<char>, k: int)
    requires
        0 <= k < headers.len(),
        lowercase(headers[k].name) == name,
        forall|i: int| 0 <= i < k ==> lowercase((#[trigger] headers[i]).name) != name,
    ensures
        field(headers, name) == Some(headers[k].value),
    decreases k,
{
    if k > 0 {
        assert(lowercase(headers[0].name) != name);
        let rest = headers.skip(1);
        assert forall|i: int| 0 <= i < k - 1 implies lowercase((#[trigger] rest[i]).name)
            != name by {
            assert(rest[i] == headers[i + 1]);
        }
        assert(rest[k - 1] == headers[k]);
        the_first_field_counts(rest, name, k - 1);
    }
}

/// A name that no field has gives nothing.
pub proof fn absent_fields_give_nothing(headers: Seq<HeaderView>, name: Seq<char>)
    requires
        forall|i: int| 0 <= i < headers.len() ==> lowercase((#[trigger] headers[i]).name) != name,
    ensures
        field(headers, name) is None,
        field_text(headers, name) is None,
    decreases headers.len(),
{
    if headers.len() > 0 {
        assert(lowercase(headers[0].name) != name);
        let rest = headers.skip(1);
        assert forall|i: int| 0 <= i < rest.len() implies lowercase((#[trigger] rest[i]).name)
            != name by {
            assert(rest[i] == headers[i + 1]);
        }
        absent_fields_give_nothing(rest, name);
    }
}

/// A field is text exactly when it is not empty and all its bytes are printable ASCII; the text has
/// one character for each byte.
pub proof fn printable_fields_are_text(headers: Seq<HeaderView>, name: Seq<char>)
    requires
        field(headers, name) is Some,
    ensures
        ({
            let bytes = field(headers, name)->0;
            &&& field_text(headers, name) is Some <==> bytes.len() > 0 && forall|i: int|
                0 <= i < bytes.len() ==> 32 <= #[trigger] bytes[i] <= 126
            &&& field_text(headers, name) matches Some(s) ==> s.len() == bytes.len() && forall|
                i: int,
            |
                0 <= i < bytes.len() ==> #[trigger] s[i] as int == bytes[i] as int
        }),
{
}

/// The canonical fields are the given ones with folded names, ordered by name and, where names are
/// equal, by value.
pub proof fn canonical_fields_are_ordered(headers: Seq<HeaderView>)
    ensures
        ({
            let sorted = sorted_fields(headers);
            &&& sorted.len() == headers.len()
            &&& sorted.to_multiset() == folded_all(headers).to_multiset()
            &&& forall|i: int, j: int|
                0 <= i < j < sorted.len() ==> {
                    let a = #[trigger] sorted[i];
                    let b = #[trigger] sorted[j];
                    ||| a == b
                    ||| text::lt(a.name, b.name)
                    ||| a.name == b.name && text::lt(letters(a.value), letters(b.value))
                }
        }),
{
    fields_are_ordered();
    let folded = folded_all(headers);
    let sorted = sorted_fields(headers);
    folded.lemma_sort_by_ensures(field_order());
    sorted.to_multiset_ensures();
    folded.to_multiset_ensures();
    assert forall|i: int, j: int| 0 <= i < j < sorted.len() implies ({
        let a = #[trigger] sorted[i];
        let b = #[trigger] sorted[j];
        ||| a == b
        ||| text::lt(a.name, b.name)
        ||| a.name == b.name && text::lt(letters(a.value), letters(b.value))
    }) by {
        assert(field_order()(sorted[i], sorted[j]));
    }
}

/// No field has no bytes, and one field has its folded name and its value, each behind its length
/// and a colon, with an equals sign between them and a line break at the end.
pub proof fn one_field_is_framed(h: HeaderView)
    ensures
        canonical(seq![]) == Seq::<u8>::empty(),
        ({
            let name = vstd::utf8::encode_utf8(lowercase(h.name));
            canonical(seq![h]) == vstd::utf8::encode_utf8(text::decimal(name.len())) + seq![58u8]
                + name + seq![61u8] + vstd::utf8::encode_utf8(text::decimal(h.value.len()))
                + seq![58u8] + h.value + seq![10u8]
        }),
{
    canonical_fields_are_ordered(seq![]);
    canonical_fields_are_ordered(seq![h]);
    assert(sorted_fields(seq![]) =~= Seq::<HeaderView>::empty());
    let sorted = sorted_fields(seq![h]);
    let folds = folded_all(seq![h]);
    folds.to_multiset_ensures();
    sorted.to_multiset_ensures();
    assert(folds =~= seq![folded(h)]);
    assert(sorted.contains(sorted[0]));
    assert(folds.to_multiset().count(sorted[0]) > 0);
    assert(folds.contains(sorted[0]));
    assert(sorted =~= seq![folded(h)]);
    assert(sorted.drop_last() =~= Seq::<HeaderView>::empty());
    assert(fields_bytes(Seq::<HeaderView>::empty()) =~= Seq::<u8>::empty());
    let name = vstd::utf8::encode_utf8(lowercase(h.name));
    assert(canonical(seq![h]) =~= vstd::utf8::encode_utf8(text::decimal(name.len())) + seq![58u8]
        + name + seq![61u8] + vstd::utf8::encode_utf8(text::decimal(h.value.len())) + seq![58u8]
        + h.value + seq![10u8]);
}

/// The fields stand one behind the other.
pub proof fn fields_stand_in_a_row(fields: Seq<HeaderView>, last: HeaderView)
    ensures
        fields_bytes(fields.push(last)) == fields_bytes(fields) + field_bytes(last),
{
    assert(fields.push(last).drop_last() =~= fields);
}

} // verus!
