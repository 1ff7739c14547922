use vstd::prelude::*;
use vstd::utf8::*;
use vstd::string::StringSliceAdditionalSpecFns;
use vstd::string::StringExecFns;

verus! {

/// The text shown for a name that the native library has not delivered as valid UTF-8.
pub open spec fn loading_text() -> Seq<char> {
    "Loading..."@
}

/// `bytes` holds no zero byte.
pub open spec fn no_nul(bytes: Seq<u8>) -> bool {
    forall|i: int| 0 <= i < bytes.len() ==> bytes[i] != 0u8
}

/// The bytes of a C string that holds `bytes`: `bytes` with a zero byte after them,
/// provided that `bytes` holds no zero byte of its own; otherwise there is none.
pub fn nul_terminated(bytes: &[u8]) -> (c_string: Option<Vec<u8>>)
    ensures
        c_string is Some <==> no_nul(bytes@),
        c_string is None <==> exists|i: int| 0 <= i < bytes@.len() && bytes@[i] == 0u8,
        c_string matches Some(v) ==> v@ == bytes@.push(0u8),
{
    let mut out: Vec<u8> = Vec::with_capacity(bytes.len());
    let mut i: usize = 0;
    while i < bytes.len()
        invariant
            i <= bytes@.len(),
            out@ == bytes@.subrange(0, i as int),
            no_nul(bytes@.subrange(0, i as int)),
        decreases bytes@.len() - i,
    {
        let b = bytes[i];
        if b == 0u8 {
            assert(bytes@[i as int] == 0u8);
            return None;
        }
        out.push(b);
        i = i + 1;
        assert(out@ == bytes@.subrange(0, i as int));
    }
    assert(bytes@.subrange(0, i as int) == bytes@);
    out.push(0u8);
    Some(out)
}

/// `std::str::from_utf8`: views `bytes` as text when they are valid UTF-8.
///
/// Claimed of it: it succeeds exactly on the byte strings that vstd's `valid_utf8`
/// accepts, and the text it gives back is encoded by exactly those bytes.
#[verifier::external_body]
fn utf8_text(bytes: &[u8]) -> (text: Option<&str>)
    ensures
        text is Some <==> valid_utf8(bytes@),
        text matches Some(s) ==> s.spec_bytes() == bytes@,
{
    match std::str::from_utf8(bytes) {
        Ok(s) => Some(s),
        Err(_) => None,
    }
}

/// The text a name stands for when the native library delivers it as `bytes` (the
/// bytes before the terminating zero): the decoded text where they are valid UTF-8,
/// and the placeholder `Loading...` where they are not.
pub open spec fn name_text(bytes: Seq<u8>) -> Seq<char> {
    if valid_utf8(bytes) {
        decode_utf8(bytes)
    } else {
        loading_text()
    }
}

/// A name delivered as valid UTF-8 reads as the text those bytes encode, and
/// encoding it again gives the same bytes; any other bytes read as `Loading...`.
pub proof fn name_text_decodes(bytes: Seq<u8>)
    ensures
        valid_utf8(bytes) ==> name_text(bytes) == decode_utf8(bytes) && encode_utf8(name_text(bytes)) == bytes,
        !valid_utf8(bytes) ==> name_text(bytes) == "Loading..."@,
{
    if valid_utf8(bytes) {
        decode_utf8_encode_utf8(bytes);
    }
}

/// Turns the bytes of a name delivered by the native library into text; bytes that
/// are not valid UTF-8 give the placeholder `Loading...`.
pub fn name_from_bytes(bytes: &[u8]) -> (name: String)
    ensures
        name@ == name_text(bytes@),
        valid_utf8(bytes@) ==> name@ == decode_utf8(bytes@),
        !valid_utf8(bytes@) ==> name@ == "Loading..."@,
{
    match utf8_text(bytes) {
        Some(s) => {
            proof {
                encode_utf8_decode_utf8(s@);
            }
            s.to_owned()
        },
        None => "Loading...".to_owned(),
    }
}

/// The items of `items` with `sep` between each two neighbours.
pub open spec fn joined(items: Seq<Seq<char>>, sep: Seq<char>) -> Seq<char>
    decreases items.len(),
{
    if items.len() == 0 {
        Seq::empty()
    } else if items.len() == 1 {
        items[0]
    } else {
        joined(items.drop_last(), sep) + sep + items.last()
    }
}

/// Joining nothing gives nothing, joining one item gives that item, and adding an
/// item after at least one other adds the separator and then that item.
pub proof fn joined_appends(items: Seq<Seq<char>>, item: Seq<char>, sep: Seq<char>)
    ensures
        joined(Seq::<Seq<char>>::empty(), sep) == Seq::<char>::empty(),
        joined(seq![item], sep) == item,
        items.len() > 0 ==> joined(items.push(item), sep) == joined(items, sep) + sep + item,
{
    assert(items.push(item).drop_last() == items);
}

/// The text of each string in `items`.
pub open spec fn texts(items: Seq<String>) -> Seq<Seq<char>> {
    items.map_values(|s: String| s@)
}

/// The texts of a list of strings are the text of each string, in order.
pub proof fn texts_of_each(items: Seq<String>)
    ensures
        texts(items).len() == items.len(),
        forall|i: int| 0 <= i < items.len() ==> texts(items)[i] == items[i]@,
{
}

/// Joins `items` with `sep` between each two neighbours.
pub fn join(items: &Vec<String>, sep: &str) -> (out: String)
    ensures
        out@ == joined(texts(items@), sep@),
{
    let mut out = String::new();
    let ghost all = texts(items@);
    let mut i: usize = 0;
    while i < items.len()
        invariant
            i <= items@.len(),
            all == texts(items@),
            all.len() == items@.len(),
            out@ == joined(all.subrange(0, i as int), sep@),
        decreases items@.len() - i,
    {
        assert(all[i as int] == items@[i as int]@);
        if i > 0 {
            out.append(sep);
        }
        out.append(items[i].as_str());
        assert(all.subrange(0, i + 1).drop_last() == all.subrange(0, i as int));
        i = i + 1;
    }
    assert(all.subrange(0, i as int) == all);
    out
}

} // verus!
