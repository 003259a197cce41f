//! Invoices, and the bytes that the repository keeps for them.

use super::amount::Amount;
use super::codec::{
    lemma_text_at, lemma_word_at, read_text, read_word, text_at, text_bytes, text_framed,
    word_at, word_bytes, write_text, write_word,
};
use super::{CodecError, Serializable};
use vstd::bytes::*;
use vstd::prelude::*;

verus! {

/// How an invoice is to be paid.
#[derive(Debug, PartialEq, Eq)]
pub struct PaymentMethod {
    /// The contract of the token to pay in; `None` for the chain's native
    /// currency.
    pub token_address: Option<String>,
}

/// A payment that is expected.
#[derive(Debug, PartialEq, Eq)]
pub struct Invoice {
    /// The key under which the repository keeps the invoice.
    pub key: String,
    /// The address of the recipient.
    pub to: String,
    /// The amount that is due; more than 0 in a valid invoice.
    pub amount: Amount,
    /// The currency that is due.
    pub method: PaymentMethod,
    /// When the invoice was created, in seconds since the Unix epoch.
    pub created_at: u64,
}

/// Where the balance of a recipient is looked up.
#[derive(Debug, PartialEq, Eq)]
pub enum BalanceSource {
    /// The chain's native currency.
    Native,
    /// The token of the contract at this address.
    Token { contract: String },
}

/// A balance source with its text as a sequence of characters.
pub enum BalanceSourceView {
    Native,
    Token { contract: Seq<char> },
}

impl View for BalanceSource {
    type V = BalanceSourceView;

    open spec fn view(&self) -> BalanceSourceView {
        match *self {
            BalanceSource::Native => BalanceSourceView::Native,
            BalanceSource::Token { contract } => BalanceSourceView::Token { contract: contract@ },
        }
    }
}

/// The source that an invoice's balance is looked up at: the token of the
/// contract where the invoice names one, else the native currency.
pub open spec fn source_of(token_address: Option<Seq<char>>) -> BalanceSourceView {
    match token_address {
        Some(contract) => BalanceSourceView::Token { contract },
        None => BalanceSourceView::Native,
    }
}

/// An invoice with its texts as sequences of characters.
pub struct InvoiceView {
    pub key: Seq<char>,
    pub to: Seq<char>,
    pub amount: Amount,
    pub token_address: Option<Seq<char>>,
    pub created_at: u64,
}

/// An optional text as an optional sequence of characters.
pub open spec fn option_text_view(text: Option<String>) -> Option<Seq<char>> {
    match text {
        Some(s) => Some(s@),
        None => None,
    }
}

impl View for Invoice {
    type V = InvoiceView;

    open spec fn view(&self) -> InvoiceView {
        InvoiceView {
            key: self.key@,
            to: self.to@,
            amount: self.amount,
            token_address: option_text_view(self.method.token_address),
            created_at: self.created_at,
        }
    }
}

impl InvoiceView {
    /// Whether this is a valid invoice: its amount is more than 0.
    pub open spec fn well_formed(self) -> bool {
        self.amount@ > 0
    }

    /// Whether every text of the invoice is short enough to be framed.
    pub open spec fn framed(self) -> bool {
        &&& text_framed(self.key)
        &&& text_framed(self.to)
        &&& self.token_address matches Some(token) ==> text_framed(token)
    }
}

/// The bytes of an amount: its four words, least significant first.
pub open spec fn amount_bytes(amount: Amount) -> Seq<u8> {
    word_bytes(amount.word0) + word_bytes(amount.word1) + word_bytes(amount.word2) + word_bytes(
        amount.word3,
    )
}

/// The bytes of an optional token address: 0 where there is none, else 1 and
/// the text.
pub open spec fn token_bytes(token: Option<Seq<char>>) -> Seq<u8> {
    match token {
        None => seq![0u8],
        Some(text) => seq![1u8] + text_bytes(text),
    }
}

/// The bytes of an invoice: key, recipient, amount, token address and time of
/// creation, in this order.
pub open spec fn invoice_bytes(invoice: InvoiceView) -> Seq<u8> {
    text_bytes(invoice.key) + text_bytes(invoice.to) + amount_bytes(invoice.amount) + token_bytes(
        invoice.token_address,
    ) + word_bytes(invoice.created_at)
}

/// The amount that starts at `at`, with the place where it ends.
pub open spec fn amount_at(bytes: Seq<u8>, at: int) -> Option<(Amount, int)> {
    match word_at(bytes, at) {
        Some((word0, at1)) => match word_at(bytes, at1) {
            Some((word1, at2)) => match word_at(bytes, at2) {
                Some((word2, at3)) => match word_at(bytes, at3) {
                    Some((word3, end)) => Some((Amount { word3, word2, word1, word0 }, end)),
                    None => None,
                },
                None => None,
            },
            None => None,
        },
        None => None,
    }
}

/// The optional token address that starts at `at`, with the place where it
/// ends; `None` where no byte is left, the first is neither 0 nor 1, or no
/// text follows a 1.
pub open spec fn token_at(bytes: Seq<u8>, at: int) -> Option<(Option<Seq<char>>, int)> {
    if 0 <= at < bytes.len() {
        if bytes[at] == 0 {
            Some((None, at + 1))
        } else if bytes[at] == 1 {
            match text_at(bytes, at + 1) {
                Some((text, end)) => Some((Some(text), end)),
                None => None,
            }
        } else {
            None
        }
    } else {
        None
    }
}

/// The invoice that `bytes` spell from their first byte to their last;
/// `None` where a part is missing or malformed, bytes are left over, or the
/// amount is 0.
pub open spec fn invoice_of(bytes: Seq<u8>) -> Option<InvoiceView> {
    match text_at(bytes, 0) {
        Some((key, at1)) => match text_at(bytes, at1) {
            Some((to, at2)) => match amount_at(bytes, at2) {
                Some((amount, at3)) => match token_at(bytes, at3) {
                    Some((token_address, at4)) => match word_at(bytes, at4) {
                        Some((created_at, end)) => if end == bytes.len() && amount@ > 0 {
                            Some(InvoiceView { key, to, amount, token_address, created_at })
                        } else {
                            None
                        },
                        None => None,
                    },
                    None => None,
                },
                None => None,
            },
            None => None,
        },
        None => None,
    }
}

/// An amount that was written at `at` is read back from there.
pub proof fn lemma_amount_at(bytes: Seq<u8>, at: int, amount: Amount)
    requires
        0 <= at,
        at + 32 <= bytes.len(),
        bytes.subrange(at, at + 32) == amount_bytes(amount),
    ensures
        amount_bytes(amount).len() == 32,
        amount_at(bytes, at) == Some((amount, at + 32)),
{
    lemma_auto_spec_u64_to_from_le_bytes();
    let written = amount_bytes(amount);
    assert(written.len() == 32);
    assert(bytes.subrange(at, at + 8) =~= written.subrange(0, 8));
    assert(written.subrange(0, 8) =~= word_bytes(amount.word0));
    assert(bytes.subrange(at + 8, at + 16) =~= written.subrange(8, 16));
    assert(written.subrange(8, 16) =~= word_bytes(amount.word1));
    assert(bytes.subrange(at + 16, at + 24) =~= written.subrange(16, 24));
    assert(written.subrange(16, 24) =~= word_bytes(amount.word2));
    assert(bytes.subrange(at + 24, at + 32) =~= written.subrange(24, 32));
    assert(written.subrange(24, 32) =~= word_bytes(amount.word3));
    lemma_word_at(bytes, at, amount.word0);
    lemma_word_at(bytes, at + 8, amount.word1);
    lemma_word_at(bytes, at + 16, amount.word2);
    lemma_word_at(bytes, at + 24, amount.word3);
}

/// An optional token address that was written at `at` is read back from
/// there.
pub proof fn lemma_token_at(bytes: Seq<u8>, at: int, token: Option<Seq<char>>)
    requires
        token matches Some(text) ==> text_framed(text),
        0 <= at,
        at + token_bytes(token).len() <= bytes.len(),
        bytes.subrange(at, at + token_bytes(token).len()) == token_bytes(token),
    ensures
        token_at(bytes, at) == Some((token, at + token_bytes(token).len())),
{
    let written = token_bytes(token);
    assert(bytes[at] == bytes.subrange(at, at + written.len())[0]);
    match token {
        None => {},
        Some(text) => {
            let framed = text_bytes(text);
            let end = 1 + framed.len() as int;
            assert(bytes.subrange(at + 1, at + end) =~= written.subrange(1, end));
            assert(written.subrange(1, end) =~= framed);
            lemma_text_at(bytes, at + 1, text);
        },
    }
}

/// The bytes of a valid invoice spell that invoice.
pub proof fn lemma_invoice_of_bytes(invoice: InvoiceView)
    requires
        invoice.well_formed(),
        invoice.framed(),
    ensures
        invoice_of(invoice_bytes(invoice)) == Some(invoice),
{
    lemma_auto_spec_u64_to_from_le_bytes();
    let bytes = invoice_bytes(invoice);
    let key = text_bytes(invoice.key);
    let to = text_bytes(invoice.to);
    let amount = amount_bytes(invoice.amount);
    let token = token_bytes(invoice.token_address);
    let created = word_bytes(invoice.created_at);
    let at1 = key.len() as int;
    let at2 = at1 + to.len();
    let at3 = at2 + amount.len();
    let at4 = at3 + token.len();
    let end = at4 + created.len();
    assert(amount.len() == 32);
    assert(created.len() == 8);
    assert(bytes.len() == end);
    assert(bytes.subrange(0, at1) =~= key);
    assert(bytes.subrange(at1, at2) =~= to);
    assert(bytes.subrange(at2, at3) =~= amount);
    assert(bytes.subrange(at3, at4) =~= token);
    assert(bytes.subrange(at4, end) =~= created);
    lemma_text_at(bytes, 0, invoice.key);
    lemma_text_at(bytes, at1, invoice.to);
    lemma_amount_at(bytes, at2, invoice.amount);
    lemma_token_at(bytes, at3, invoice.token_address);
    lemma_word_at(bytes, at4, invoice.created_at);
}

/// Appends the bytes of an amount.
pub fn write_amount(out: &mut Vec<u8>, amount: &Amount)
    ensures
        final(out)@ == old(out)@ + amount_bytes(*amount),
{
    write_word(out, amount.word0);
    write_word(out, amount.word1);
    write_word(out, amount.word2);
    write_word(out, amount.word3);
    assert(out@ =~= old(out)@ + amount_bytes(*amount));
}

/// Appends the bytes of an optional token address.
pub fn write_token(out: &mut Vec<u8>, token: &Option<String>)
    ensures
        option_text_view(*token) matches Some(text) ==> text_framed(text),
        final(out)@ == old(out)@ + token_bytes(option_text_view(*token)),
{
    match token {
        None => {
            out.push(0u8);
            assert(out@ =~= old(out)@ + token_bytes(option_text_view(*token)));
        },
        Some(text) => {
            out.push(1u8);
            write_text(out, text.as_str());
            assert(out@ =~= old(out)@ + token_bytes(option_text_view(*token)));
        },
    }
}

/// Reads the amount that starts at `at`.
pub fn read_amount(bytes: &Vec<u8>, at: usize) -> (out: Option<(Amount, usize)>)
    ensures
        match out {
            Some((amount, next)) => amount_at(bytes@, at as int) == Some((amount, next as int)),
            None => amount_at(bytes@, at as int) is None,
        },
{
    let (word0, at1) = match read_word(bytes, at) {
        Some(read) => read,
        None => { return None; },
    };
    let (word1, at2) = match read_word(bytes, at1) {
        Some(read) => read,
        None => { return None; },
    };
    let (word2, at3) = match read_word(bytes, at2) {
        Some(read) => read,
        None => { return None; },
    };
    let (word3, end) = match read_word(bytes, at3) {
        Some(read) => read,
        None => { return None; },
    };
    Some((Amount { word3, word2, word1, word0 }, end))
}

/// Reads the optional token address that starts at `at`.
pub fn read_token(bytes: &Vec<u8>, at: usize) -> (out: Option<(Option<String>, usize)>)
    ensures
        match out {
            Some((token, next)) => token_at(bytes@, at as int) == Some(
                (option_text_view(token), next as int),
            ),
            None => token_at(bytes@, at as int) is None,
        },
{
    if at >= bytes.len() {
        return None;
    }
    let tag = bytes[at];
    if tag == 0 {
        Some((None, at + 1))
    } else if tag == 1 {
        match read_text(bytes, at + 1) {
            Some((text, end)) => Some((Some(text), end)),
            None => None,
        }
    } else {
        None
    }
}

impl Invoice {
    /// Whether this is a valid invoice: its amount is more than 0.
    pub fn is_well_formed(&self) -> (out: bool)
        ensures
            out == self@.well_formed(),
    {
        !self.amount.is_zero()
    }

    /// The source that this invoice's balance is looked up at.
    pub fn balance_source(&self) -> (out: BalanceSource)
        ensures
            out@ == source_of(self@.token_address),
    {
        match &self.method.token_address {
            Some(contract) => BalanceSource::Token { contract: contract.clone() },
            None => BalanceSource::Native,
        }
    }
}

impl Clone for PaymentMethod {
    fn clone(&self) -> (out: PaymentMethod)
        ensures
            out == *self,
    {
        match &self.token_address {
            Some(address) => PaymentMethod { token_address: Some(address.clone()) },
            None => PaymentMethod { token_address: None },
        }
    }
}

impl Clone for Invoice {
    fn clone(&self) -> (out: Invoice)
        ensures
            out == *self,
    {
        Invoice {
            key: self.key.clone(),
            to: self.to.clone(),
            amount: self.amount,
            method: self.method.clone(),
            created_at: self.created_at,
        }
    }
}

impl Serializable for Invoice {
    /// A valid invoice is encoded by `invoice_bytes`; an invoice with the
    /// amount 0 has no encoding.
    open spec fn encoding(value: InvoiceView) -> Option<Seq<u8>> {
        if value.well_formed() && value.framed() {
            Some(invoice_bytes(value))
        } else {
            None
        }
    }

    open spec fn decoding(bytes: Seq<u8>) -> Option<InvoiceView> {
        invoice_of(bytes)
    }

    proof fn lemma_round_trip(value: InvoiceView) {
        if value.well_formed() && value.framed() {
            lemma_invoice_of_bytes(value);
        }
    }

    fn to_bin(&self) -> (out: Result<Vec<u8>, CodecError>) {
        if self.amount.is_zero() {
            return Err(CodecError::Unencodable);
        }
        let mut bytes: Vec<u8> = Vec::new();
        write_text(&mut bytes, self.key.as_str());
        write_text(&mut bytes, self.to.as_str());
        write_amount(&mut bytes, &self.amount);
        write_token(&mut bytes, &self.method.token_address);
        write_word(&mut bytes, self.created_at);
        assert(bytes@ =~= invoice_bytes(self@));
        Ok(bytes)
    }

    fn from_bin(bytes: Vec<u8>) -> (out: Result<Invoice, CodecError>) {
        let (key, at1) = match read_text(&bytes, 0) {
            Some(read) => read,
            None => { return Err(CodecError::Corrupt); },
        };
        let (to, at2) = match read_text(&bytes, at1) {
            Some(read) => read,
            None => { return Err(CodecError::Corrupt); },
        };
        let (amount, at3) = match read_amount(&bytes, at2) {
            Some(read) => read,
            None => { return Err(CodecError::Corrupt); },
        };
        let (token_address, at4) = match read_token(&bytes, at3) {
            Some(read) => read,
            None => { return Err(CodecError::Corrupt); },
        };
        let (created_at, end) = match read_word(&bytes, at4) {
            Some(read) => read,
            None => { return Err(CodecError::Corrupt); },
        };
        if end != bytes.len() || amount.is_zero() {
            return Err(CodecError::Corrupt);
        }
        Ok(Invoice { key, to, amount, method: PaymentMethod { token_address }, created_at })
    }
}

} // verus!
