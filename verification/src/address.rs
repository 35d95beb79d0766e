//! Lightning addresses: an identity and a domain around one separator.

use vstd::prelude::*;
use crate::error::{PayError, PayErrorView, result_view};

verus! {

/// The character between the identity and the domain.
pub const SEPARATOR: char = '@';

/// A Lightning address, split into its two parts.
#[derive(Debug, PartialEq, Eq)]
pub struct LightningAddress {
    /// What stands before the separator.
    pub identity: String,
    /// What stands after the separator.
    pub domain: String,
}

/// A `LightningAddress` as two sequences of characters.
pub struct AddressView {
    pub identity: Seq<char>,
    pub domain: Seq<char>,
}

impl View for LightningAddress {
    type V = AddressView;

    open spec fn view(&self) -> AddressView {
        AddressView { identity: self.identity@, domain: self.domain@ }
    }
}

impl Clone for LightningAddress {
    fn clone(&self) -> (copy: Self)
        ensures
            copy == *self,
    {
        LightningAddress { identity: self.identity.clone(), domain: self.domain.clone() }
    }
}

impl AddressView {
    /// Both parts are non-empty and neither holds a separator.
    pub open spec fn well_formed(self) -> bool {
        &&& self.identity.len() > 0
        &&& self.domain.len() > 0
        &&& !self.identity.contains(SEPARATOR)
        &&& !self.domain.contains(SEPARATOR)
    }

    /// The address as one text: identity, separator, domain.
    pub open spec fn text(self) -> Seq<char> {
        self.identity.push(SEPARATOR) + self.domain
    }
}

/// `text` is the address `address`: two non-empty parts around the only
/// separator of the text.
pub open spec fn is_address(text: Seq<char>, address: AddressView) -> bool {
    address.well_formed() && text == address.text()
}

/// `text` is some address.
pub open spec fn is_valid_address(text: Seq<char>) -> bool {
    exists|address: AddressView| is_address(text, address)
}

/// How many separators a text holds.
pub open spec fn separator_count(text: Seq<char>) -> nat
    decreases text.len(),
{
    if text.len() == 0 {
        0
    } else {
        separator_count(text.drop_last()) + if text.last() == SEPARATOR {
            1nat
        } else {
            0nat
        }
    }
}

/// The address that a text is, where it is one.
pub open spec fn address_of(text: Seq<char>) -> AddressView {
    choose|address: AddressView| is_address(text, address)
}

/// `outcome` is what parsing `text` may give: the address that the text is,
/// or the format error where it is none.
pub open spec fn is_parse_of(text: Seq<char>, outcome: Result<AddressView, PayErrorView>) -> bool {
    match outcome {
        Ok(address) => is_address(text, address),
        Err(error) => error == PayErrorView::Format && !is_valid_address(text),
    }
}

/// What parsing `text` gives.
pub open spec fn parsed(text: Seq<char>) -> Result<AddressView, PayErrorView> {
    if is_valid_address(text) {
        Ok(address_of(text))
    } else {
        Err(PayErrorView::Format)
    }
}

/// In an address the separator stands right behind the identity and nowhere
/// else.
pub proof fn lemma_separator_position(text: Seq<char>, address: AddressView, at: int)
    requires
        is_address(text, address),
        0 <= at < text.len(),
    ensures
        text.len() == address.identity.len() + 1 + address.domain.len(),
        text[at] == SEPARATOR <==> at == address.identity.len(),
{
}

/// A text holds no separator exactly if it counts none.
pub proof fn lemma_no_separator(text: Seq<char>)
    ensures
        separator_count(text) == 0 <==> !text.contains(SEPARATOR),
    decreases text.len(),
{
    if text.len() > 0 {
        let front = text.drop_last();
        lemma_no_separator(front);
        if text.contains(SEPARATOR) && text.last() != SEPARATOR {
            let at = choose|at: int| 0 <= at < text.len() && text[at] == SEPARATOR;
            assert(front[at] == SEPARATOR);
        }
    }
}

/// The separators of two texts in a row are counted together.
pub proof fn lemma_separators_add_up(front: Seq<char>, back: Seq<char>)
    ensures
        separator_count(front + back) == separator_count(front) + separator_count(back),
    decreases back.len(),
{
    if back.len() > 0 {
        lemma_separators_add_up(front, back.drop_last());
        assert((front + back).drop_last() =~= front + back.drop_last());
    }
}

/// A text with a separator put behind it holds one separator more.
pub proof fn lemma_separator_pushed(front: Seq<char>)
    ensures
        separator_count(front.push(SEPARATOR)) == separator_count(front) + 1,
{
    assert(front.push(SEPARATOR).drop_last() =~= front);
}

/// The texts that are addresses are those with exactly one separator, which
/// is neither their first character nor their last.
pub proof fn lemma_one_separator(text: Seq<char>)
    ensures
        is_valid_address(text) <==> separator_count(text) == 1 && text.first() != SEPARATOR
            && text.last() != SEPARATOR,
{
    if is_valid_address(text) {
        let address = address_of(text);
        lemma_separators_add_up(address.identity.push(SEPARATOR), address.domain);
        lemma_separator_pushed(address.identity);
        lemma_no_separator(address.identity);
        lemma_no_separator(address.domain);
        lemma_separator_position(text, address, 0);
        lemma_separator_position(text, address, text.len() - 1);
    }
    if separator_count(text) == 1 && text.first() != SEPARATOR && text.last() != SEPARATOR {
        lemma_no_separator(text);
        let at = choose|at: int| 0 <= at < text.len() && text[at] == SEPARATOR;
        let address = AddressView {
            identity: text.subrange(0, at),
            domain: text.subrange(at + 1, text.len() as int),
        };
        assert(text =~= address.text());
        lemma_separators_add_up(address.identity.push(SEPARATOR), address.domain);
        lemma_separator_pushed(address.identity);
        lemma_no_separator(address.identity);
        lemma_no_separator(address.domain);
        assert(is_address(text, address));
    }
}

/// A text is at most one address: its two parts are determined by the text.
pub proof fn lemma_address_unique(text: Seq<char>, first: AddressView, second: AddressView)
    requires
        is_address(text, first),
        is_address(text, second),
    ensures
        first == second,
{
    let split = first.identity.len() as int;
    lemma_separator_position(text, first, split);
    lemma_separator_position(text, second, split);
    assert(first.identity =~= text.subrange(0, split));
    assert(second.identity =~= text.subrange(0, split));
    assert(first.domain =~= text.subrange(split + 1, text.len() as int));
    assert(second.domain =~= text.subrange(split + 1, text.len() as int));
}

/// `address_of` names the one address that a text is.
pub proof fn lemma_address_of(text: Seq<char>, address: AddressView)
    requires
        is_address(text, address),
    ensures
        is_valid_address(text),
        address_of(text) == address,
{
    lemma_address_unique(text, address, address_of(text));
}

/// Parsing is a function of the text: whatever it may give for a text is
/// `parsed` of that text, so the same text always gives the same outcome.
pub proof fn lemma_parse_is_function(
    text: Seq<char>,
    first: Result<AddressView, PayErrorView>,
    second: Result<AddressView, PayErrorView>,
)
    requires
        is_parse_of(text, first),
        is_parse_of(text, second),
    ensures
        first == parsed(text),
        first == second,
{
    if let Ok(address) = first {
        lemma_address_of(text, address);
    }
    if let Ok(address) = second {
        lemma_address_of(text, address);
    }
}

/// An address put together from its parts parses into those parts.
pub proof fn lemma_parse_of_text(address: AddressView)
    requires
        address.well_formed(),
    ensures
        parsed(address.text()) == Ok::<AddressView, PayErrorView>(address),
{
    lemma_address_of(address.text(), address);
}

impl LightningAddress {
    /// Splits an address at its separator.
    ///
    /// Succeeds exactly on the texts that consist of a non-empty identity, one
    /// separator and a non-empty domain, and fails with `PayError::Format` on
    /// every other text. The result depends on the text alone.
    pub fn parse(address: &str) -> (r: Result<LightningAddress, PayError>)
        ensures
            is_parse_of(address@, result_view(r)),
            result_view(r) == parsed(address@),
    {
        let len: usize = address.unicode_len();
        let mut first: Option<usize> = None;
        let mut repeated: bool = false;
        let ghost mut second: int = 0;
        let mut index: usize = 0;
        for c in chars: address.chars()
            invariant
                chars.seq() == address@,
                index == chars.index(),
                len == address@.len(),
                first is None ==> !repeated && forall|j: int|
                    0 <= j < index ==> address@[j] != SEPARATOR,
                first matches Some(at) ==> at < index && address@[at as int] == SEPARATOR
                    && forall|j: int| 0 <= j < at ==> address@[j] != SEPARATOR,
                first matches Some(at) ==> !repeated ==> forall|j: int|
                    at < j < index ==> address@[j] != SEPARATOR,
                first matches Some(at) ==> repeated ==> at < second < index && address@[second]
                    == SEPARATOR,
        {
            if c == SEPARATOR {
                match first {
                    None => {
                        first = Some(index);
                    },
                    Some(_) => {
                        if !repeated {
                            proof {
                                second = index as int;
                            }
                        }
                        repeated = true;
                    },
                }
            }
            index = index + 1;
        }
        match first {
            Some(at) => {
                if repeated || at == 0 || at + 1 == len {
                    proof {
                        assert forall|other: AddressView| !is_address(address@, other) by {
                            if is_address(address@, other) {
                                lemma_separator_position(address@, other, at as int);
                                if repeated {
                                    lemma_separator_position(address@, other, second);
                                }
                            }
                        }
                    }
                    Err(PayError::Format)
                } else {
                    let identity = address.substring_char(0, at).to_owned();
                    let domain = address.substring_char(at + 1, len).to_owned();
                    let parsed = LightningAddress { identity, domain };
                    proof {
                        assert(address@ =~= parsed@.text());
                        lemma_address_of(address@, parsed@);
                    }
                    Ok(parsed)
                }
            },
            None => {
                proof {
                    assert forall|other: AddressView| !is_address(address@, other) by {
                        if is_address(address@, other) {
                            lemma_separator_position(
                                address@,
                                other,
                                other.identity.len() as int,
                            );
                        }
                    }
                }
                Err(PayError::Format)
            },
        }
    }
}

} // verus!
