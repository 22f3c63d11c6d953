//! What may be uploaded, and under which name an accepted file is kept.
//!
//! An upload arrives as a file that the web framework has already written
//! to a temporary path, together with the name and the size the client
//! declared. Nothing here reads or writes the file: the rules look at the
//! name and the size only.

use vstd::prelude::*;
use vstd::string::*;
use crate::config::{digit_value, lemma_value_of_digits, value};
use crate::error::ApiError;

verus! {

/// The largest accepted upload in bytes, unless configured otherwise: 5 MiB.
pub const DEFAULT_MAX_FILE_SIZE: u64 = 5242880;

/// An uploaded file that waits at a temporary path.
#[derive(Debug, Clone, PartialEq, Eq)]
pub struct StagedUpload {
    /// Where the bytes were written.
    pub temp_path: String,
    /// The name the client gave the file, if it gave one.
    pub file_name: Option<String>,
    /// The number of bytes received.
    pub size: usize,
}

/// The text after the last full stop of `name`, or `None` where `name`
/// holds no full stop.
pub open spec fn extension(name: Seq<char>) -> Option<Seq<char>>
    decreases name.len(),
{
    if name.len() == 0 {
        None
    } else if name.last() == '.' {
        Some(Seq::empty())
    } else {
        match extension(name.drop_last()) {
            Some(tail) => Some(tail.push(name.last())),
            None => None,
        }
    }
}

/// Whether a file with this extension is taken: `png`, `jpg` and `jpeg`
/// are, in lower case, and nothing else.
pub open spec fn extension_accepted(found: Option<Seq<char>>) -> bool {
    found matches Some(text) && (text == "png"@ || text == "jpg"@ || text == "jpeg"@)
}

/// The first rule that an upload with this name and size breaks under the
/// limit `max_bytes`: the extension is looked at before the size, and an
/// empty file is refused as empty whatever the limit.
pub open spec fn violation(name: Seq<char>, size: usize, max_bytes: u64) -> Option<ApiError> {
    if !extension_accepted(extension(name)) {
        Some(ApiError::UnsupportedMediaType)
    } else if size == 0 {
        Some(ApiError::EmptyPayload)
    } else if size > max_bytes {
        Some(ApiError::PayloadTooLarge)
    } else {
        None
    }
}

/// The character for the digit `d`.
pub open spec fn digit(d: nat) -> char {
    if d == 0 {
        '0'
    } else if d == 1 {
        '1'
    } else if d == 2 {
        '2'
    } else if d == 3 {
        '3'
    } else if d == 4 {
        '4'
    } else if d == 5 {
        '5'
    } else if d == 6 {
        '6'
    } else if d == 7 {
        '7'
    } else if d == 8 {
        '8'
    } else {
        '9'
    }
}

/// `n` in decimal digits, without leading zeros.
pub open spec fn digits(n: nat) -> Seq<char>
    decreases n,
{
    if n < 10 {
        seq![digit(n)]
    } else {
        digits(n / 10).push(digit(n % 10))
    }
}

/// `n` in decimal, with a minus sign in front of a negative number.
pub open spec fn decimal(n: int) -> Seq<char> {
    if n < 0 {
        seq!['-'] + digits((-n) as nat)
    } else {
        digits(n as nat)
    }
}

/// The character for the hexadecimal digit `d`, in lower case.
pub open spec fn hex_digit(d: nat) -> char {
    if d < 10 {
        digit(d)
    } else if d == 10 {
        'a'
    } else if d == 11 {
        'b'
    } else if d == 12 {
        'c'
    } else if d == 13 {
        'd'
    } else if d == 14 {
        'e'
    } else {
        'f'
    }
}

/// The last `width` hexadecimal digits of `n`, with leading zeros.
pub open spec fn hex(n: nat, width: nat) -> Seq<char>
    decreases width,
{
    if width == 0 {
        Seq::empty()
    } else {
        hex(n / 16, (width - 1) as nat).push(hex_digit(n % 16))
    }
}

/// The number of hexadecimal digits a post's key is written in.
pub const KEY_WIDTH: usize = 32;

/// A post's key in 32 hexadecimal digits.
pub open spec fn key_text(uuid: u128) -> Seq<char> {
    hex(uuid as nat, KEY_WIDTH as nat)
}

/// The name under which the upload of the post `uuid` is kept, where the
/// client called it `name` and it was accepted at the second `now`: the
/// time, the post's key, and the client's name, with hyphens between them.
/// The key makes the name the upload's own.
pub open spec fn stored_name(now: i64, uuid: u128, name: Seq<char>) -> Seq<char> {
    decimal(now as int) + seq!['-'] + key_text(uuid) + seq!['-'] + name
}

/// The extension of `name` starts after a full stop that no other follows.
proof fn lemma_extension_after_last_stop(name: Seq<char>, start: int)
    requires
        0 < start <= name.len(),
        name[start - 1] == '.',
        forall|i: int| start <= i < name.len() ==> name[i] != '.',
    ensures
        extension(name) == Some(name.subrange(start, name.len() as int)),
    decreases name.len(),
{
    if name.last() == '.' {
        assert(start == name.len());
        assert(name.subrange(start, name.len() as int) =~= Seq::<char>::empty());
    } else {
        let front = name.drop_last();
        assert(front[start - 1] == '.');
        lemma_extension_after_last_stop(front, start);
        assert(front.subrange(start, front.len() as int).push(name.last()) =~= name.subrange(
            start,
            name.len() as int,
        ));
    }
}

/// A name without a full stop has no extension.
proof fn lemma_no_stop_no_extension(name: Seq<char>)
    requires
        forall|i: int| 0 <= i < name.len() ==> name[i] != '.',
    ensures
        extension(name) is None,
    decreases name.len(),
{
    if name.len() > 0 {
        lemma_no_stop_no_extension(name.drop_last());
    }
}

/// The extension of `name`.
pub fn extension_of(name: &str) -> (found: Option<String>)
    ensures
        match extension(name@) {
            Some(text) => found matches Some(owned) && owned@ == text,
            None => found is None,
        },
{
    let length: usize = name.unicode_len();
    let mut start: usize = length;
    while start > 0 && name.get_char(start - 1) != '.'
        invariant
            start <= length,
            length == name@.len(),
            forall|i: int| start <= i < length ==> name@[i] != '.',
        decreases start,
    {
        start = start - 1;
    }
    if start == 0 {
        proof {
            lemma_no_stop_no_extension(name@);
        }
        None
    } else {
        proof {
            lemma_extension_after_last_stop(name@, start as int);
        }
        Some(String::from_str(name.substring_char(start, length)))
    }
}

/// Whether a file with the extension `found` is taken.
pub fn is_accepted_extension(found: &Option<String>) -> (taken: bool)
    ensures
        taken == extension_accepted(
            match *found {
                Some(text) => Some(text@),
                None => None,
            },
        ),
{
    match found {
        Some(text) => {
            *text == String::from_str("png") || *text == String::from_str("jpg") || *text
                == String::from_str("jpeg")
        },
        None => false,
    }
}

/// The string for one decimal digit.
fn digit_text(d: u64) -> (text: &'static str)
    requires
        d < 10,
    ensures
        text@ == seq![digit(d as nat)],
{
    proof {
        reveal_strlit("0");
        reveal_strlit("1");
        reveal_strlit("2");
        reveal_strlit("3");
        reveal_strlit("4");
        reveal_strlit("5");
        reveal_strlit("6");
        reveal_strlit("7");
        reveal_strlit("8");
        reveal_strlit("9");
    }
    let text = if d == 0 {
        "0"
    } else if d == 1 {
        "1"
    } else if d == 2 {
        "2"
    } else if d == 3 {
        "3"
    } else if d == 4 {
        "4"
    } else if d == 5 {
        "5"
    } else if d == 6 {
        "6"
    } else if d == 7 {
        "7"
    } else if d == 8 {
        "8"
    } else {
        "9"
    };
    assert(text@ =~= seq![digit(d as nat)]);
    text
}

/// Appends `n` in decimal digits to `out`.
fn append_digits(out: &mut String, n: u64)
    ensures
        final(out)@ == old(out)@ + digits(n as nat),
    decreases n,
{
    if n >= 10 {
        append_digits(out, n / 10);
    }
    out.append(digit_text(n % 10));
    assert(out@ =~= old(out)@ + digits(n as nat));
}

/// `n` in decimal.
pub fn decimal_text(n: i64) -> (text: String)
    ensures
        text@ == decimal(n as int),
{
    let mut text = String::new();
    if n < 0 {
        proof {
            reveal_strlit("-");
        }
        text.append("-");
        let magnitude: u64 = (-(n + 1)) as u64 + 1;
        append_digits(&mut text, magnitude);
        assert(text@ =~= decimal(n as int));
    } else {
        append_digits(&mut text, n as u64);
        assert(text@ =~= decimal(n as int));
    }
    text
}

/// Different numbers are written differently.
pub proof fn lemma_decimal_is_one_to_one(a: int, b: int)
    requires
        decimal(a) == decimal(b),
    ensures
        a == b,
{
    let left = if a < 0 {
        (-a) as nat
    } else {
        a as nat
    };
    let right = if b < 0 {
        (-b) as nat
    } else {
        b as nat
    };
    lemma_value_of_digits(left);
    lemma_value_of_digits(right);
    assert(digit_value(digits(left)[0]) is Some);
    assert(digit_value(digits(right)[0]) is Some);
    if a < 0 {
        assert(decimal(a)[0] == '-');
        assert(decimal(a).subrange(1, decimal(a).len() as int) =~= digits(left));
    } else {
        assert(decimal(a)[0] == digits(left)[0]);
    }
    if b < 0 {
        assert(decimal(b)[0] == '-');
        assert(decimal(b).subrange(1, decimal(b).len() as int) =~= digits(right));
    } else {
        assert(decimal(b)[0] == digits(right)[0]);
    }
    assert(digit_value('-') is None);
    assert(value(digits(left)) == value(digits(right)));
}

/// What is written in decimal holds at least one character, and digits
/// only after the first.
proof fn lemma_decimal_shape(n: int)
    ensures
        decimal(n).len() >= 1,
        forall|i: int| 1 <= i < decimal(n).len() ==> digit_value(#[trigger] decimal(n)[i]) is Some,
{
    if n < 0 {
        let magnitude = (-n) as nat;
        lemma_value_of_digits(magnitude);
        assert forall|i: int| 1 <= i < decimal(n).len() implies digit_value(
            #[trigger] decimal(n)[i],
        ) is Some by {
            assert(decimal(n)[i] == digits(magnitude)[i - 1]);
        }
    } else {
        lemma_value_of_digits(n as nat);
    }
}

/// As many digits are written as were asked for.
proof fn lemma_hex_len(n: nat, width: nat)
    ensures
        hex(n, width).len() == width,
    decreases width,
{
    if width > 0 {
        lemma_hex_len(n / 16, (width - 1) as nat);
    }
}

/// The number of numbers that `width` hexadecimal digits tell apart.
pub open spec fn sixteen_to(width: nat) -> nat
    decreases width,
{
    if width == 0 {
        1
    } else {
        16 * sixteen_to((width - 1) as nat)
    }
}

/// Different numbers that fit the width are written differently.
proof fn lemma_hex_is_one_to_one(a: nat, b: nat, width: nat)
    requires
        hex(a, width) == hex(b, width),
        a < sixteen_to(width),
        b < sixteen_to(width),
    ensures
        a == b,
    decreases width,
{
    if width > 0 {
        let shorter = (width - 1) as nat;
        let left = hex(a / 16, shorter).push(hex_digit(a % 16));
        let right = hex(b / 16, shorter).push(hex_digit(b % 16));
        assert(left.drop_last() =~= hex(a / 16, shorter));
        assert(right.drop_last() =~= hex(b / 16, shorter));
        assert(left.last() == hex_digit(a % 16));
        assert(right.last() == hex_digit(b % 16));
        assert(a % 16 == b % 16);
        lemma_hex_is_one_to_one(a / 16, b / 16, shorter);
    }
}

/// Different keys are written differently.
pub proof fn lemma_key_text_is_one_to_one(first: u128, second: u128)
    requires
        key_text(first) == key_text(second),
    ensures
        first == second,
{
    assert(sixteen_to(32) == 0x1_0000_0000_0000_0000_0000_0000_0000_0000) by {
        reveal_with_fuel(sixteen_to, 33);
    }
    lemma_hex_is_one_to_one(first as nat, second as nat, 32);
}

/// A stored name tells everything it was made of: two uploads are kept
/// under the same name only if they were accepted at the same second, for
/// the same post, under the same client name.
pub proof fn law_stored_name_is_one_to_one(
    first_now: i64,
    first_key: u128,
    first_name: Seq<char>,
    second_now: i64,
    second_key: u128,
    second_name: Seq<char>,
)
    requires
        stored_name(first_now, first_key, first_name) == stored_name(
            second_now,
            second_key,
            second_name,
        ),
    ensures
        first_now == second_now,
        first_key == second_key,
        first_name == second_name,
{
    let whole = stored_name(first_now, first_key, first_name);
    let other = stored_name(second_now, second_key, second_name);
    let time1 = decimal(first_now as int);
    let time2 = decimal(second_now as int);
    let key1 = key_text(first_key);
    let key2 = key_text(second_key);
    lemma_decimal_shape(first_now as int);
    lemma_decimal_shape(second_now as int);
    lemma_hex_len(first_key as nat, 32);
    lemma_hex_len(second_key as nat, 32);
    assert(digit_value('-') is None);
    assert(whole[time1.len() as int] == '-');
    assert(other[time2.len() as int] == '-');
    if time1.len() < time2.len() {
        assert(other[time1.len() as int] == time2[time1.len() as int]);
    }
    if time2.len() < time1.len() {
        assert(whole[time2.len() as int] == time1[time2.len() as int]);
    }
    assert(time1.len() == time2.len());
    assert forall|i: int| 0 <= i < time1.len() implies time1[i] == time2[i] by {
        assert(time1[i] == whole[i]);
        assert(time2[i] == other[i]);
    }
    assert(time1 =~= time2);
    lemma_decimal_is_one_to_one(first_now as int, second_now as int);
    let after_time = time1.len() + 1;
    assert forall|i: int| 0 <= i < 32 implies key1[i] == key2[i] by {
        assert(key1[i] == whole[after_time + i]);
        assert(key2[i] == other[after_time + i]);
    }
    assert(key1 =~= key2);
    lemma_key_text_is_one_to_one(first_key, second_key);
    let after_key = after_time + 33;
    assert(whole.len() == after_key + first_name.len());
    assert(other.len() == after_key + second_name.len());
    assert forall|i: int| 0 <= i < first_name.len() implies first_name[i] == second_name[i] by {
        assert(first_name[i] == whole[after_key + i]);
        assert(second_name[i] == other[after_key + i]);
    }
    assert(first_name =~= second_name);
}

/// A stored name is never empty: it holds the time, the 32 digits of the
/// key and two hyphens at the least.
pub proof fn law_stored_name_is_not_empty(now: i64, uuid: u128, name: Seq<char>)
    ensures
        stored_name(now, uuid, name).len() >= 35,
{
    lemma_decimal_shape(now as int);
    lemma_hex_len(uuid as nat, 32);
}

/// Uploads for different posts are kept under different names, whatever the
/// second they were accepted at and whatever the clients called them.
pub proof fn law_stored_names_tell_posts_apart(
    first_now: i64,
    first_key: u128,
    first_name: Seq<char>,
    second_now: i64,
    second_key: u128,
    second_name: Seq<char>,
)
    requires
        first_key != second_key,
    ensures
        stored_name(first_now, first_key, first_name) != stored_name(
            second_now,
            second_key,
            second_name,
        ),
{
    if stored_name(first_now, first_key, first_name) == stored_name(
        second_now,
        second_key,
        second_name,
    ) {
        law_stored_name_is_one_to_one(
            first_now,
            first_key,
            first_name,
            second_now,
            second_key,
            second_name,
        );
    }
}

/// The string for one hexadecimal digit.
fn hex_digit_text(d: u128) -> (text: &'static str)
    requires
        d < 16,
    ensures
        text@ == seq![hex_digit(d as nat)],
{
    if d < 10 {
        digit_text(d as u64)
    } else {
        proof {
            reveal_strlit("a");
            reveal_strlit("b");
            reveal_strlit("c");
            reveal_strlit("d");
            reveal_strlit("e");
            reveal_strlit("f");
        }
        let text = if d == 10 {
            "a"
        } else if d == 11 {
            "b"
        } else if d == 12 {
            "c"
        } else if d == 13 {
            "d"
        } else if d == 14 {
            "e"
        } else {
            "f"
        };
        assert(text@ =~= seq![hex_digit(d as nat)]);
        text
    }
}

/// Appends the last `width` hexadecimal digits of `n` to `out`.
fn append_hex(out: &mut String, n: u128, width: usize)
    ensures
        final(out)@ == old(out)@ + hex(n as nat, width as nat),
    decreases width,
{
    if width > 0 {
        append_hex(out, n / 16, width - 1);
        out.append(hex_digit_text(n % 16));
    }
    assert(out@ =~= old(out)@ + hex(n as nat, width as nat));
}

/// A post's key in 32 hexadecimal digits.
pub fn key_hex(uuid: u128) -> (text: String)
    ensures
        text@ == key_text(uuid),
{
    let mut text = String::new();
    append_hex(&mut text, uuid, KEY_WIDTH);
    assert(text@ =~= key_text(uuid));
    text
}

impl StagedUpload {
    /// The name the upload goes by: the client's, or `null` where it gave none.
    pub open spec fn name(self) -> Seq<char> {
        match self.file_name {
            Some(name) => name@,
            None => "null"@,
        }
    }

    /// The name the upload goes by.
    pub fn declared_name(&self) -> (name: String)
        ensures
            name@ == self.name(),
    {
        match &self.file_name {
            Some(name) => name.clone(),
            None => String::from_str("null"),
        }
    }

    /// The extension of the upload's name.
    pub fn declared_extension(&self) -> (found: Option<String>)
        ensures
            match extension(self.name()) {
                Some(text) => found matches Some(owned) && owned@ == text,
                None => found is None,
            },
    {
        let name = self.declared_name();
        extension_of(name.as_str())
    }

    /// Holds the upload to the rules: `Ok` where it breaks none, else the
    /// first that it breaks.
    pub fn validate(&self, max_bytes: u64) -> (verdict: Result<(), ApiError>)
        ensures
            match violation(self.name(), self.size, max_bytes) {
                Some(error) => verdict == Err::<(), ApiError>(error),
                None => verdict is Ok,
            },
    {
        let found = self.declared_extension();
        if !is_accepted_extension(&found) {
            Err(ApiError::UnsupportedMediaType)
        } else if self.size == 0 {
            Err(ApiError::EmptyPayload)
        } else if self.size as u64 > max_bytes {
            Err(ApiError::PayloadTooLarge)
        } else {
            Ok(())
        }
    }

    /// The name under which the upload of the post `uuid` is kept once it
    /// was accepted at the second `now`.
    pub fn permanent_name(&self, now: i64, uuid: u128) -> (name: String)
        ensures
            name@ == stored_name(now, uuid, self.name()),
    {
        proof {
            reveal_strlit("-");
        }
        let mut name = decimal_text(now);
        name.append("-");
        let key = key_hex(uuid);
        name.append(key.as_str());
        name.append("-");
        let declared = self.declared_name();
        name.append(declared.as_str());
        assert(name@ =~= stored_name(now, uuid, self.name()));
        name
    }
}

} // verus!
