//! Lists of texts in one property of the engine.
//!
//! The engine separates the items of a list by commas. An item may hold a
//! comma itself when its length in bytes stands before it, between percent
//! signs.
use crate::ordered;
use crate::text;
use vstd::prelude::*;

verus! {

/// An item with its length before it.
pub open spec fn encoded_item(value: Seq<char>) -> Seq<char> {
    "%"@ + text::decimal(vstd::utf8::encode_utf8(value).len()) + "%"@ + value
}

/// The items, each with its length before it, and commas between them.
pub open spec fn encoded_list(values: Seq<Seq<char>>) -> Seq<char>
    decreases values.len(),
{
    if values.len() == 0 {
        Seq::empty()
    } else if values.len() == 1 {
        encoded_item(values[0])
    } else {
        encoded_list(values.drop_last()) + ","@ + encoded_item(values.last())
    }
}

/// Writes a list.
pub fn encode_mpv_list(values: &Vec<String>) -> (encoded: String)
    ensures
        encoded@ == encoded_list(ordered::texts(values@)),
{
    let mut encoded = String::new();
    let mut i: usize = 0;
    let ghost all = ordered::texts(values@);
    while i < values.len()
        invariant
            i <= values@.len(),
            all == ordered::texts(values@),
            encoded@ == encoded_list(all.take(i as int)),
        decreases values@.len() - i,
    {
        proof {
            assert(all.take(i + 1).drop_last() =~= all.take(i as int));
            assert(all.take(i + 1).last() == all[i as int]);
        }
        if i > 0 {
            encoded.append(",");
        }
        let value = values[i].as_str();
        let length = text::decimal_text(value.as_bytes().len() as u64);
        encoded.append("%");
        encoded.append(length.as_str());
        encoded.append("%");
        encoded.append(value);
        proof {
            assert(encoded@ =~= encoded_list(all.take(i + 1)));
        }
        i = i + 1;
    }
    assert(all.take(i as int) =~= all);
    encoded
}

/// The number that the digits at the front of some bytes say, continuing one
/// that was read before, and what stands behind them.
pub open spec fn read_number(bytes: Seq<u8>, read: nat) -> (nat, Seq<u8>)
    decreases bytes.len(),
{
    if bytes.len() > 0 && 48 <= bytes[0] <= 57 {
        read_number(bytes.drop_first(), (read * 10 + (bytes[0] - 48)) as nat)
    } else {
        (read, bytes)
    }
}

/// Reading a number leaves no more than was there.
pub proof fn lemma_number_shrinks(bytes: Seq<u8>, read: nat)
    ensures
        read_number(bytes, read).1.len() <= bytes.len(),
    decreases bytes.len(),
{
    if bytes.len() > 0 && 48 <= bytes[0] <= 57 {
        lemma_number_shrinks(bytes.drop_first(), (read * 10 + (bytes[0] - 48)) as nat);
    }
}

/// The items of a list, as the engine reads them: a percent sign, a length, a
/// percent sign and that many bytes; then the end, or a comma and the rest.
/// `None` for what is no such list.
pub open spec fn read_list(bytes: Seq<u8>) -> Option<Seq<Seq<u8>>>
    decreases bytes.len(),
{
    if bytes.len() == 0 {
        Some(Seq::empty())
    } else if bytes[0] != 37 {
        None
    } else {
        proof {
            lemma_number_shrinks(bytes.drop_first(), 0);
        }
        let (length, behind) = read_number(bytes.drop_first(), 0);
        if behind.len() == 0 || behind[0] != 37 || behind.len() < length + 1 {
            None
        } else {
            let value = behind.subrange(1, length as int + 1);
            let rest = behind.skip(length as int + 1);
            if rest.len() == 0 {
                Some(seq![value])
            } else if rest[0] != 44 {
                None
            } else {
                match read_list(rest.drop_first()) {
                    Some(others) => Some(seq![value] + others),
                    None => None,
                }
            }
        }
    }
}

/// The bytes of each text.
pub open spec fn bytes_of(values: Seq<Seq<char>>) -> Seq<Seq<u8>> {
    values.map_values(|value: Seq<char>| vstd::utf8::encode_utf8(value))
}

proof fn lemma_bytes_join(a: Seq<char>, b: Seq<char>)
    ensures
        vstd::utf8::encode_utf8(a + b) == vstd::utf8::encode_utf8(a) + vstd::utf8::encode_utf8(b),
    decreases a.len(),
{
    if a.len() == 0 {
        assert(a + b =~= b);
        assert(vstd::utf8::encode_utf8(a) =~= Seq::<u8>::empty());
    } else {
        lemma_bytes_join(a.drop_first(), b);
        assert((a + b).drop_first() =~= a.drop_first() + b);
        assert((a + b)[0] == a[0]);
        assert(vstd::utf8::encode_utf8(a + b) =~= vstd::utf8::encode_utf8(a)
            + vstd::utf8::encode_utf8(b));
    }
}

proof fn lemma_ascii_char(c: char)
    requires
        c as u32 <= 0x7f,
    ensures
        vstd::utf8::encode_utf8(seq![c]) == seq![c as u8],
{
    let one = seq![c];
    assert(vstd::utf8::is_ascii_chars(one));
    vstd::utf8::is_ascii_chars_encode_utf8(one);
    assert(vstd::utf8::encode_utf8(one) =~= seq![c as u8]);
}

proof fn lemma_digit_byte(value: nat)
    requires
        value < 10,
    ensures
        vstd::utf8::encode_utf8(seq![text::digit(value)]) == seq![(48 + value) as u8],
{
    lemma_ascii_char(text::digit(value));
}

proof fn lemma_number_reads_back(value: nat, rest: Seq<u8>)
    ensures
        read_number(vstd::utf8::encode_utf8(text::decimal(value)) + rest, 0) == read_number(
            rest,
            value,
        ),
    decreases value,
{
    let last = (value % 10) as nat;
    lemma_digit_byte(last);
    let digit = seq![(48 + last) as u8];
    let behind = digit + rest;
    assert(behind.drop_first() =~= rest);
    if value < 10 {
        assert(read_number(behind, 0) == read_number(rest, last));
    } else {
        let front = text::decimal(value / 10);
        assert(text::decimal(value) =~= front + seq![text::digit(last)]);
        lemma_bytes_join(front, seq![text::digit(last)]);
        assert(vstd::utf8::encode_utf8(text::decimal(value)) + rest
            =~= vstd::utf8::encode_utf8(front) + behind);
        lemma_number_reads_back(value / 10, behind);
        assert(read_number(behind, value / 10) == read_number(
            rest,
            ((value / 10) * 10 + last) as nat,
        ));
    }
}

proof fn lemma_item_bytes(value: Seq<char>)
    ensures
        vstd::utf8::encode_utf8(encoded_item(value)) == seq![37u8] + vstd::utf8::encode_utf8(
            text::decimal(vstd::utf8::encode_utf8(value).len()),
        ) + seq![37u8] + vstd::utf8::encode_utf8(value),
{
    let number = text::decimal(vstd::utf8::encode_utf8(value).len());
    reveal_strlit("%");
    assert("%"@ =~= seq!['%']);
    lemma_ascii_char('%');
    lemma_bytes_join("%"@, number);
    lemma_bytes_join("%"@ + number, "%"@);
    lemma_bytes_join("%"@ + number + "%"@, value);
}

proof fn lemma_list_from_front(values: Seq<Seq<char>>)
    requires
        values.len() > 1,
    ensures
        encoded_list(values) == encoded_item(values[0]) + ","@ + encoded_list(values.drop_first()),
    decreases values.len(),
{
    if values.len() == 2 {
        assert(values.drop_last().len() == 1);
        assert(encoded_list(values.drop_last()) == encoded_item(values[0]));
        assert(encoded_list(values.drop_first()) == encoded_item(values[1]));
    } else {
        lemma_list_from_front(values.drop_last());
        assert(values.drop_last().drop_first() =~= values.drop_first().drop_last());
        assert(encoded_list(values) =~= encoded_item(values[0]) + ","@ + encoded_list(
            values.drop_first(),
        ));
    }
}

/// What is written as a list is read back as the same list, whatever commas,
/// percent signs or other characters the items hold.
pub proof fn lists_read_back(values: Seq<Seq<char>>)
    ensures
        read_list(vstd::utf8::encode_utf8(encoded_list(values))) == Some(bytes_of(values)),
    decreases values.len(),
{
    if values.len() == 0 {
        assert(bytes_of(values) =~= Seq::empty());
        assert(vstd::utf8::encode_utf8(encoded_list(values)) =~= Seq::empty());
        assert(read_list(Seq::empty()) == Some(Seq::<Seq<u8>>::empty()));
    } else {
        let value = values[0];
        let bytes = vstd::utf8::encode_utf8(value);
        let number = vstd::utf8::encode_utf8(text::decimal(bytes.len()));
        let rest = if values.len() == 1 {
            Seq::empty()
        } else {
            seq![44u8] + vstd::utf8::encode_utf8(encoded_list(values.drop_first()))
        };
        let all = vstd::utf8::encode_utf8(encoded_list(values));
        lemma_item_bytes(value);
        if values.len() > 1 {
            lemma_list_from_front(values);
            reveal_strlit(",");
            assert(","@ =~= seq![',']);
            lemma_ascii_char(',');
            lemma_bytes_join(encoded_item(value), ","@);
            lemma_bytes_join(
                encoded_item(value) + ","@,
                encoded_list(values.drop_first()),
            );
        }
        let behind = seq![37u8] + bytes + rest;
        assert(all =~= seq![37u8] + number + behind);
        assert(all.drop_first() =~= number + behind);
        lemma_number_reads_back(bytes.len(), behind);
        assert(behind[0] == 37);
        assert(read_number(behind, bytes.len()) == (bytes.len(), behind));
        assert(behind.subrange(1, bytes.len() as int + 1) =~= bytes);
        assert(behind.skip(bytes.len() as int + 1) =~= rest);
        if values.len() == 1 {
            assert(bytes_of(values) =~= seq![bytes]);
        } else {
            lists_read_back(values.drop_first());
            assert(rest.drop_first() =~= vstd::utf8::encode_utf8(
                encoded_list(values.drop_first()),
            ));
            assert(bytes_of(values) =~= seq![bytes] + bytes_of(values.drop_first()));
        }
    }
}

} // verus!
