//! The number by which the login service knows this installation.

use vstd::prelude::*;

use crate::codec::fill_random;
use crate::error::{plain_error, AuthError, ErrorKind};
use crate::text::{
    all_digits, chars_of, is_digit, text_of, trim, without_white_end, without_white_start,
};

verus! {

/// Whether a text has the form of a device's id: nineteen decimal digits.
pub open spec fn valid_device_id(s: Seq<char>) -> bool {
    s.len() == 19 && all_digits(s)
}

fn is_device_id(s: &str) -> (r: bool)
    ensures
        r == valid_device_id(s@),
{
    let cs: Vec<char> = chars_of(s);
    if cs.len() != 19 {
        return false;
    }
    for i in 0..cs.len()
        invariant
            cs@ == s@,
            forall|j: int| 0 <= j < i ==> is_digit(#[trigger] s@[j]),
    {
        if (cs[i] as u32) < 48 || (cs[i] as u32) > 57 {
            assert(!is_digit(s@[i as int]));
            return false;
        }
    }
    true
}

/// The id in the text of its file, where there is one of the right form.
pub open spec fn kept_id(saved: Seq<char>) -> Option<Seq<char>> {
    let id = without_white_end(without_white_start(saved));
    if valid_device_id(id) {
        Some(id)
    } else {
        None
    }
}

/// Reads the id from the text of its file.
pub fn saved_device_id(saved: &str) -> (r: Option<String>)
    ensures
        crate::json::owned_chars(r) == kept_id(saved@),
{
    let id: &str = trim(saved);
    if is_device_id(id) {
        Some(id.to_owned())
    } else {
        None
    }
}

/// The digit that a byte stands for: the first one is never zero.
pub open spec fn id_digit(byte: u8, first: bool) -> char {
    if first {
        ('1' as u32 + byte % 9) as char
    } else {
        ('0' as u32 + byte % 10) as char
    }
}

/// The id that nineteen bytes stand for.
pub open spec fn minted_id(bytes: Seq<u8>) -> Seq<char> {
    Seq::new(bytes.len(), |i: int| id_digit(bytes[i], i == 0))
}

/// Makes an id from bytes, one digit from each.
pub fn mint_device_id(bytes: &[u8]) -> (r: String)
    requires
        bytes@.len() == 19,
    ensures
        r@ == minted_id(bytes@),
        valid_device_id(r@),
{
    let mut cs: Vec<char> = Vec::new();
    for i in 0..bytes.len()
        invariant
            cs@.len() == i,
            forall|j: int| 0 <= j < i ==> #[trigger] cs@[j] == id_digit(bytes@[j], j == 0),
            forall|j: int| 0 <= j < i ==> is_digit(#[trigger] cs@[j]),
    {
        let c: char = if i == 0 {
            (49u8 + bytes[i] % 9) as char
        } else {
            (48u8 + bytes[i] % 10) as char
        };
        cs.push(c);
    }
    assert(cs@ =~= minted_id(bytes@));
    text_of(cs.as_slice())
}

/// A device's id, and whether it is new and has yet to be written to its file.
#[derive(Debug)]
pub struct DeviceId {
    pub id: String,
    pub fresh: bool,
}

/// The id of this installation: the one in its file, where that has the right form, else one
/// of random digits. Which digits those are is not stated.
pub fn device_id(saved: Option<&str>) -> (r: Result<DeviceId, AuthError>)
    ensures
        match r {
            Ok(d) => if saved is Some && kept_id(saved->0@) is Some {
                !d.fresh && d.id@ == kept_id(saved->0@)->0
            } else {
                d.fresh && exists|bytes: Seq<u8>|
                    bytes.len() == 19 && #[trigger] minted_id(bytes) == d.id@
            },
            Err(e) => e@ == plain_error(ErrorKind::NoRandomness) && !(saved is Some && kept_id(
                saved->0@,
            ) is Some),
        },
        r is Ok ==> valid_device_id(r->Ok_0.id@),
{
    if let Some(text) = saved {
        if let Some(id) = saved_device_id(text) {
            return Ok(DeviceId { id, fresh: false });
        }
    }
    let mut bytes: Vec<u8> = Vec::new();
    bytes.resize(19, 0);
    if !fill_random(bytes.as_mut_slice()) {
        return Err(AuthError::new(ErrorKind::NoRandomness));
    }
    let id: String = mint_device_id(bytes.as_slice());
    assert(minted_id(bytes@) == id@);
    Ok(DeviceId { id, fresh: true })
}

/// Every id that is made has the right form, and does not start with a zero.
pub proof fn law_minted_ids_are_valid(bytes: Seq<u8>)
    requires
        bytes.len() == 19,
    ensures
        valid_device_id(minted_id(bytes)),
        minted_id(bytes)[0] != '0',
{
    assert forall|i: int| 0 <= i < 19 implies is_digit(#[trigger] minted_id(bytes)[i]) by {}
}

/// An installation keeps its id: one that was written to the file is the one that is read from
/// it ever after.
pub proof fn law_device_id_is_stable(id: Seq<char>)
    requires
        valid_device_id(id),
    ensures
        kept_id(id) == Some(id),
{
    assert(is_digit(id[0]) && is_digit(id.last()));
    assert(without_white_start(id) == id);
    assert(without_white_end(id) == id);
}

/// Each byte gives one digit, in its place: the remainder by ten, and for the first one of the
/// digits from one to nine, the remainder by nine.
pub proof fn law_each_byte_gives_its_digit(bytes: Seq<u8>, i: int)
    requires
        0 <= i < bytes.len(),
    ensures
        minted_id(bytes).len() == bytes.len(),
        i == 0 ==> minted_id(bytes)[i] == "123456789"@[bytes[i] as int % 9],
        i > 0 ==> minted_id(bytes)[i] == "0123456789"@[bytes[i] as int % 10],
{
    reveal_strlit("123456789");
    reveal_strlit("0123456789");
    let some = "123456789"@;
    let all = "0123456789"@;
    assert(some[0] == '1' && some[1] == '2' && some[2] == '3' && some[3] == '4' && some[4] == '5');
    assert(some[5] == '6' && some[6] == '7' && some[7] == '8' && some[8] == '9');
    assert(all[0] == '0' && all[1] == '1' && all[2] == '2' && all[3] == '3' && all[4] == '4');
    assert(all[5] == '5' && all[6] == '6' && all[7] == '7' && all[8] == '8' && all[9] == '9');
}

/// An id is kept where the file holds it with nothing but white space around it, and only an id of
/// nineteen digits is.
pub proof fn law_only_ids_are_kept(
    before: Seq<char>,
    id: Seq<char>,
    behind: Seq<char>,
    saved: Seq<char>,
)
    requires
        valid_device_id(id),
        forall|i: int| 0 <= i < before.len() ==> crate::text::is_white(#[trigger] before[i]),
        forall|i: int| 0 <= i < behind.len() ==> crate::text::is_white(#[trigger] behind[i]),
    ensures
        kept_id(before + id + behind) == Some(id),
        kept_id(saved) is Some ==> kept_id(saved)->0.len() == 19 && forall|i: int|
            0 <= i < 19 ==> 48 <= (#[trigger] kept_id(saved)->0[i]) as u32 <= 57,
        kept_id(saved) is Some ==> crate::text::occurs(kept_id(saved)->0, saved),
{
    let whole = before + id + behind;
    assert(is_digit(id[0]) && is_digit(id.last()));
    lemma_white_around(before, id, behind);
    if kept_id(saved) is Some {
        let kept = kept_id(saved)->0;
        let rest = without_white_start(saved);
        crate::text::law_trimming_the_start(saved);
        crate::text::law_trimming_the_end(rest);
        let at = saved.len() - rest.len();
        assert(saved.subrange(at, at + kept.len()) =~= kept);
        assert forall|i: int| 0 <= i < 19 implies 48 <= (#[trigger] kept[i]) as u32 <= 57 by {
            assert(is_digit(kept[i]));
        }
    }
}

proof fn lemma_white_around(before: Seq<char>, id: Seq<char>, behind: Seq<char>)
    requires
        id.len() > 0,
        is_digit(id[0]),
        is_digit(id.last()),
        forall|i: int| 0 <= i < before.len() ==> crate::text::is_white(#[trigger] before[i]),
        forall|i: int| 0 <= i < behind.len() ==> crate::text::is_white(#[trigger] behind[i]),
    ensures
        without_white_end(without_white_start(before + id + behind)) == id,
    decreases before.len() + behind.len(),
{
    let whole = before + id + behind;
    if before.len() > 0 {
        assert(whole[0] == before[0]);
        assert(whole.skip(1) =~= before.skip(1) + id + behind);
        assert forall|i: int| 0 <= i < before.skip(1).len() implies crate::text::is_white(
            #[trigger] before.skip(1)[i],
        ) by {
            assert(before.skip(1)[i] == before[i + 1]);
        }
        lemma_white_around(before.skip(1), id, behind);
    } else {
        assert(whole =~= id + behind);
        assert(whole[0] == id[0]);
        if behind.len() > 0 {
            assert(whole.last() == behind[behind.len() - 1]);
            assert(whole.drop_last() =~= before + id + behind.drop_last());
            assert forall|i: int| 0 <= i < behind.drop_last().len() implies crate::text::is_white(
                #[trigger] behind.drop_last()[i],
            ) by {
                assert(behind.drop_last()[i] == behind[i]);
            }
            assert(whole.drop_last()[0] == id[0]);
            lemma_white_around(before, id, behind.drop_last());
        } else {
            assert(whole =~= id);
        }
    }
}

} // verus!
