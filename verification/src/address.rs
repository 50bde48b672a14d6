//! Bluetooth addresses as text.

use vstd::prelude::*;

verus! {

/// The upper case hexadecimal digit for a number below sixteen.
pub open spec fn hex_digit(n: int) -> char {
    if n < 10 {
        ('0' as int + n) as char
    } else {
        ('A' as int + n - 10) as char
    }
}

/// A byte as two hexadecimal digits.
pub open spec fn hex_byte(byte: u8) -> Seq<char> {
    seq![hex_digit(byte as int / 16), hex_digit(byte as int % 16)]
}

/// An address as text: six bytes as hexadecimal digits, with colons between.
pub open spec fn address_text(address: Seq<u8>) -> Seq<char> {
    hex_byte(address[0]) + seq![':'] + hex_byte(address[1]) + seq![':'] + hex_byte(address[2])
        + seq![':'] + hex_byte(address[3]) + seq![':'] + hex_byte(address[4]) + seq![':']
        + hex_byte(address[5])
}

/// Calls `to_string` on the `btleplug::api::BDAddr` made from the six bytes.
/// Taken on trust: it writes each byte, the first one first, as two upper case
/// hexadecimal digits, with a colon between one byte and the next.
#[verifier::external_body]
fn format_address(address: [u8; 6]) -> (text: String)
    ensures
        text@ == address_text(address@),
{
    btleplug::api::BDAddr::from(address).to_string()
}

/// The names under which devices with these addresses are found.
pub fn address_names(addresses: &Vec<[u8; 6]>) -> (names: Vec<String>)
    ensures
        names@.len() == addresses@.len(),
        forall|i: int|
            0 <= i < names@.len() ==> (#[trigger] names@[i])@ == address_text(addresses@[i]@),
{
    let mut names: Vec<String> = Vec::new();
    let mut i: usize = 0;
    while i < addresses.len()
        invariant
            i <= addresses@.len(),
            names@.len() == i,
            forall|j: int|
                0 <= j < i ==> (#[trigger] names@[j])@ == address_text(addresses@[j]@),
        decreases addresses@.len() - i,
    {
        names.push(format_address(addresses[i]));
        i = i + 1;
    }
    names
}

/// The name of an address has seventeen characters: for each byte its two
/// hexadecimal digits, the higher one first, in upper case, and a colon between
/// one byte and the next. There is one name for each address, in order.
pub proof fn lemma_names_spell_addresses(addresses: &Vec<[u8; 6]>, names: Vec<String>)
    requires
        call_ensures(address_names, (addresses,), names),
    ensures
        call_requires(address_names, (addresses,)),
        names@.len() == addresses@.len(),
        forall|i: int, k: int|
            #![trigger names@[i], addresses@[i]@[k]]
            0 <= i < names@.len() && 0 <= k < 6 ==> {
                let digits = "0123456789ABCDEF"@;
                let byte = addresses@[i]@[k] as int;
                &&& names@[i]@.len() == 17
                &&& names@[i]@[3 * k] == digits[byte / 16]
                &&& names@[i]@[3 * k + 1] == digits[byte % 16]
                &&& k < 5 ==> names@[i]@[3 * k + 2] == ':'
            },
{
    reveal_strlit("0123456789ABCDEF");
    assert forall|i: int, k: int|
        #![trigger names@[i], addresses@[i]@[k]]
        0 <= i < names@.len() && 0 <= k < 6 implies {
        let digits = "0123456789ABCDEF"@;
        let byte = addresses@[i]@[k] as int;
        &&& names@[i]@.len() == 17
        &&& names@[i]@[3 * k] == digits[byte / 16]
        &&& names@[i]@[3 * k + 1] == digits[byte % 16]
        &&& k < 5 ==> names@[i]@[3 * k + 2] == ':'
    } by {
        let digits = "0123456789ABCDEF"@;
        assert forall|n: int| 0 <= n < 16 implies #[trigger] hex_digit(n) == digits[n] by {}
        let name = names@[i]@;
        let a = addresses@[i]@;
        assert(name == address_text(a));
        assert(k == 0 || k == 1 || k == 2 || k == 3 || k == 4 || k == 5);
    }
}

/// Two devices go by the same name only where they have the same address.
pub proof fn lemma_names_tell_addresses_apart(
    addresses: &Vec<[u8; 6]>,
    names: Vec<String>,
    i: int,
    j: int,
)
    requires
        call_ensures(address_names, (addresses,), names),
        0 <= i < names@.len(),
        0 <= j < names@.len(),
        names@[i]@ == names@[j]@,
    ensures
        addresses@[i]@ == addresses@[j]@,
{
    lemma_names_spell_addresses(addresses, names);
    reveal_strlit("0123456789ABCDEF");
    let digits = "0123456789ABCDEF"@;
    assert(digits.no_duplicates());
    assert forall|k: int| 0 <= k < 6 implies addresses@[i]@[k] == addresses@[j]@[k] by {
        let b = addresses@[i]@[k] as int;
        let c = addresses@[j]@[k] as int;
        assert(digits[b / 16] == digits[c / 16]);
        assert(digits[b % 16] == digits[c % 16]);
        assert(b / 16 == c / 16 && b % 16 == c % 16);
    }
    assert(addresses@[i]@ =~= addresses@[j]@);
}

} // verus!
