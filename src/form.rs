use vstd::prelude::*;

verus! {

/// Errors of the urlencoded form decoder.
#[verifier::external_type_specification]
#[verifier::external_body]
pub struct ExDecodeError(serde::de::value::Error);

/// The name/value pairs of a decoded form, in the order they came.
pub open spec fn pairs_view(s: Seq<(String, String)>) -> Seq<(Seq<char>, Seq<char>)> {
    s.map_values(|p: (String, String)| (p.0@, p.1@))
}

/// What `serde_urlencoded` makes of a body: its pairs in order, or nothing
/// where it refuses the bytes.
pub uninterp spec fn decoded_form(b: Seq<u8>) -> Option<Seq<(Seq<char>, Seq<char>)>>;

/// Relies on serde_urlencoded::from_bytes: it decodes an
/// `application/x-www-form-urlencoded` body into its name/value pairs, in
/// order, and the outcome depends on the bytes alone.
#[verifier::external_body]
pub(crate) fn decode_form(bytes: &[u8]) -> (r: Result<Vec<(String, String)>, serde::de::value::Error>)
    ensures
        r matches Ok(v) ==> decoded_form(bytes@) == Some(pairs_view(v@)),
        r is Err ==> decoded_form(bytes@) is None,
{
    serde_urlencoded::from_bytes::<Vec<(String, String)>>(bytes)
}

/// The value of a field; where a name repeats, the last one counts.
pub open spec fn field_of(form: Seq<(Seq<char>, Seq<char>)>, key: Seq<char>) -> Option<Seq<char>>
    decreases form.len(),
{
    if form.len() == 0 {
        None
    } else if form.last().0 == key {
        Some(form.last().1)
    } else {
        field_of(form.drop_last(), key)
    }
}

/// The view of an optional string.
pub open spec fn opt_view(o: Option<String>) -> Option<Seq<char>> {
    match o {
        Some(s) => Some(s@),
        None => None,
    }
}

/// Looks a field up by name; the last of repeated names counts.
pub fn field(form: &Vec<(String, String)>, key: &str) -> (r: Option<String>)
    ensures
        opt_view(r) == field_of(pairs_view(form@), key@),
{
    let k = key.to_owned();
    let mut found: Option<String> = None;
    let mut i: usize = 0;
    while i < form.len()
        invariant
            i <= form@.len(),
            k@ == key@,
            opt_view(found) == field_of(pairs_view(form@).take(i as int), key@),
        decreases form@.len() - i,
    {
        let ghost before = pairs_view(form@).take(i as int);
        let ghost after = pairs_view(form@).take(i as int + 1);
        assert(after.drop_last() =~= before);
        assert(after.last() == (form@[i as int].0@, form@[i as int].1@));
        if form[i].0 == k {
            found = Some(form[i].1.clone());
        }
        i = i + 1;
    }
    assert(pairs_view(form@).take(form@.len() as int) =~= pairs_view(form@));
    found
}

} // verus!
