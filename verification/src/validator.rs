//! Checks of the fields of a request.

use vstd::prelude::*;
use vstd::string::StringExecFns;

use crate::config::ValidatorConfig;
use crate::quantity::Real;
use crate::text::{push_usize, str_byte_len};

verus! {

/// Why a field was refused.
#[derive(Debug, Clone, PartialEq)]
pub enum ValidationError {
    EmptyField(&'static str),
    TooLong(&'static str, usize),
    InvalidCharacters(&'static str),
    OutOfRange(&'static str),
    InvalidNumber(&'static str),
}

impl ValidationError {
    /// The message for a refused field.
    pub open spec fn text(self) -> Seq<char> {
        match self {
            ValidationError::EmptyField(field) => field@ + " cannot be empty"@,
            ValidationError::TooLong(field, max) => field@ + " too long (max "@
                + crate::text::decimal(max as nat) + " chars)"@,
            ValidationError::InvalidCharacters(field) => field@ + " contains invalid characters"@,
            ValidationError::OutOfRange(field) => field@ + " out of range"@,
            ValidationError::InvalidNumber(field) => field@ + " must be a valid number"@,
        }
    }

    /// The message for a refused field.
    pub fn to_text(&self) -> (s: String)
        ensures
            s@ == self.text(),
    {
        match self {
            ValidationError::EmptyField(field) => {
                let mut s = (*field).to_owned();
                s.append(" cannot be empty");
                s
            },
            ValidationError::TooLong(field, max) => {
                let mut s = (*field).to_owned();
                s.append(" too long (max ");
                push_usize(&mut s, *max);
                s.append(" chars)");
                s
            },
            ValidationError::InvalidCharacters(field) => {
                let mut s = (*field).to_owned();
                s.append(" contains invalid characters");
                s
            },
            ValidationError::OutOfRange(field) => {
                let mut s = (*field).to_owned();
                s.append(" out of range");
                s
            },
            ValidationError::InvalidNumber(field) => {
                let mut s = (*field).to_owned();
                s.append(" must be a valid number");
                s
            },
        }
    }
}

pub type ValidationResult = Result<(), ValidationError>;

/// Whether a character is a letter or a number, as Unicode has it.
pub uninterp spec fn alphanumeric(c: char) -> bool;

/// Whether a character is an ASCII letter or digit.
pub open spec fn ascii_alphanumeric(c: char) -> bool {
    'a' <= c <= 'z' || 'A' <= c <= 'Z' || '0' <= c <= '9'
}

/// `char::is_alphanumeric`: a function of the character alone. Of the ASCII characters it holds
/// for the letters and digits; of the others nothing more is claimed.
#[verifier::external_body]
fn is_alphanumeric(c: char) -> (r: bool)
    ensures
        r == alphanumeric(c),
        c <= '\x7f' ==> r == ascii_alphanumeric(c),
{
    c.is_alphanumeric()
}

/// Whether a character may stand in a symbol.
pub open spec fn symbol_char(c: char) -> bool {
    alphanumeric(c) || c == '.' || c == '-'
}

/// The result for a symbol of at most `max_length` bytes.
pub open spec fn symbol_result(symbol: Seq<char>, max_length: usize) -> ValidationResult {
    if symbol.len() == 0 {
        Err(ValidationError::EmptyField("symbol"))
    } else if crate::text::byte_len(symbol) > max_length {
        Err(ValidationError::TooLong("symbol", max_length))
    } else if exists|i: int| 0 <= i < symbol.len() && !symbol_char(#[trigger] symbol[i]) {
        Err(ValidationError::InvalidCharacters("symbol"))
    } else {
        Ok(())
    }
}

/// The result for a quantity of at most `max`.
pub open spec fn quantity_result(qty: Real, max: Real) -> ValidationResult {
    if qty.not_positive() {
        Err(ValidationError::OutOfRange("quantity"))
    } else if max.less(qty) {
        Err(ValidationError::TooLong("quantity", max.clamped()))
    } else if !qty.is_finite() {
        Err(ValidationError::InvalidNumber("quantity"))
    } else {
        Ok(())
    }
}

/// The result for an amount that has to be positive and finite.
pub open spec fn amount_result(amount: Real, field: &'static str) -> ValidationResult {
    if amount.not_positive() {
        Err(ValidationError::OutOfRange(field))
    } else if !amount.is_finite() {
        Err(ValidationError::InvalidNumber(field))
    } else {
        Ok(())
    }
}

/// The result for an order id of at most `max_length` bytes.
pub open spec fn order_id_result(order_id: Seq<char>, max_length: usize) -> ValidationResult {
    if order_id.len() == 0 {
        Err(ValidationError::EmptyField("order_id"))
    } else if crate::text::byte_len(order_id) > max_length {
        Err(ValidationError::TooLong("order_id", max_length))
    } else {
        Ok(())
    }
}

/// Checks the fields of a request against limits.
pub struct RequestValidator {
    pub config: ValidatorConfig,
}

impl RequestValidator {
    pub fn new(config: ValidatorConfig) -> (v: Self)
        ensures
            v.config == config,
    {
        RequestValidator { config }
    }

    /// Checks a symbol: not empty, not too long, of letters, numbers, dots and hyphens.
    pub fn validate_symbol(&self, symbol: &str) -> (r: ValidationResult)
        ensures
            r == symbol_result(symbol@, self.config.max_symbol_length),
    {
        if symbol.unicode_len() == 0 {
            return Err(ValidationError::EmptyField("symbol"));
        }
        if str_byte_len(symbol) > self.config.max_symbol_length {
            return Err(ValidationError::TooLong("symbol", self.config.max_symbol_length));
        }
        for c in it: symbol.chars()
            invariant
                symbol@.len() > 0,
                crate::text::byte_len(symbol@) <= self.config.max_symbol_length,
                it.seq() == symbol@,
                forall|j: int| 0 <= j < it.index() ==> symbol_char(#[trigger] symbol@[j]),
        {
            if !(is_alphanumeric(c) || c == '.' || c == '-') {
                assert(!symbol_char(symbol@[it.index() as int]));
                return Err(ValidationError::InvalidCharacters("symbol"));
            }
        }
        Ok(())
    }

    /// Checks a quantity: positive, not above the largest, a number.
    pub fn validate_quantity(&self, qty: Real) -> (r: ValidationResult)
        ensures
            r == quantity_result(qty, self.config.max_quantity),
    {
        if qty.is_not_positive() {
            return Err(ValidationError::OutOfRange("quantity"));
        }
        if self.config.max_quantity.lt(&qty) {
            return Err(ValidationError::TooLong("quantity", self.config.max_quantity.to_usize()));
        }
        if !qty.finite() {
            return Err(ValidationError::InvalidNumber("quantity"));
        }
        Ok(())
    }

    /// Checks a price: positive and finite.
    pub fn validate_price(&self, price: Real) -> (r: ValidationResult)
        ensures
            r == amount_result(price, "price"),
    {
        if price.is_not_positive() {
            return Err(ValidationError::OutOfRange("price"));
        }
        if !price.finite() {
            return Err(ValidationError::InvalidNumber("price"));
        }
        Ok(())
    }

    /// Checks an order id: not empty, not too long.
    pub fn validate_order_id(&self, order_id: &str) -> (r: ValidationResult)
        ensures
            r == order_id_result(order_id@, self.config.max_order_id_length),
    {
        if order_id.unicode_len() == 0 {
            return Err(ValidationError::EmptyField("order_id"));
        }
        if str_byte_len(order_id) > self.config.max_order_id_length {
            return Err(ValidationError::TooLong("order_id", self.config.max_order_id_length));
        }
        Ok(())
    }

    /// Checks a notional: positive and finite.
    pub fn validate_notional(&self, notional: Real) -> (r: ValidationResult)
        ensures
            r == amount_result(notional, "notional"),
    {
        if notional.is_not_positive() {
            return Err(ValidationError::OutOfRange("notional"));
        }
        if !notional.finite() {
            return Err(ValidationError::InvalidNumber("notional"));
        }
        Ok(())
    }
}

impl Default for RequestValidator {
    fn default() -> (v: Self)
        ensures
            v.config.max_symbol_length == 20,
            v.config.max_quantity.bits == 0x412e_8480_0000_0000,
            v.config.max_order_id_length == 100,
    {
        RequestValidator::new(ValidatorConfig::default())
    }
}

/// No quantity that is accepted is above the largest one, nor not a number.
pub proof fn law_accepted_quantity_is_safe(qty: Real, max: Real)
    ensures
        quantity_result(qty, max) is Ok <==> qty.positive() && qty.is_finite() && !max.less(qty),
{
}

/// A symbol is accepted just where it is not empty, has no more bytes than the limit, and is made of
/// letters, numbers, dots and hyphens; the first of these that fails is the error.
pub proof fn law_symbol_is_accepted(v: RequestValidator, symbol: &str, r: ValidationResult)
    requires
        call_ensures(RequestValidator::validate_symbol, (&v, symbol), r),
    ensures
        ({
            let short = crate::text::byte_len(symbol@) <= v.config.max_symbol_length;
            let clean = forall|i: int|
                0 <= i < symbol@.len() ==> alphanumeric(#[trigger] symbol@[i]) || symbol@[i] == '.'
                    || symbol@[i] == '-';
            &&& r is Ok <==> symbol@.len() > 0 && short && clean
            &&& symbol@.len() == 0 <==> r == Err::<(), _>(ValidationError::EmptyField("symbol"))
            &&& symbol@.len() > 0 && !short <==> r == Err::<(), _>(
                ValidationError::TooLong("symbol", v.config.max_symbol_length),
            )
            &&& symbol@.len() > 0 && short && !clean <==> r == Err::<(), _>(
                ValidationError::InvalidCharacters("symbol"),
            )
        }),
{
    if r is Ok {
        assert forall|i: int| 0 <= i < symbol@.len() implies alphanumeric(#[trigger] symbol@[i])
            || symbol@[i] == '.' || symbol@[i] == '-' by {
            assert(symbol_char(symbol@[i]));
        }
    }
}

/// A quantity is accepted just where it is a number above zero and not above the largest; infinity
/// never is, and what is no number is refused as such.
pub proof fn law_quantity_is_accepted(v: RequestValidator, qty: Real, r: ValidationResult)
    requires
        call_ensures(RequestValidator::validate_quantity, (&v, qty), r),
        v.config.max_quantity.is_finite(),
    ensures
        r is Ok <==> qty.is_finite() && 0 < qty.rank() <= v.config.max_quantity.rank(),
        !qty.is_nan() && qty.rank() <= 0 <==> r == Err::<(), _>(
            ValidationError::OutOfRange("quantity"),
        ),
        qty.is_nan() ==> r == Err::<(), _>(ValidationError::InvalidNumber("quantity")),
        !qty.is_nan() && qty.rank() > 0 && qty.rank() > v.config.max_quantity.rank() ==> r
            is Err && r->Err_0 is TooLong,
{
}

/// A price and a notional are accepted just where they are finite and above zero, and the error
/// names the one that is not.
pub proof fn law_amounts_are_accepted(
    v: RequestValidator,
    amount: Real,
    price: ValidationResult,
    notional: ValidationResult,
)
    requires
        call_ensures(RequestValidator::validate_price, (&v, amount), price),
        call_ensures(RequestValidator::validate_notional, (&v, amount), notional),
    ensures
        price is Ok <==> amount.is_finite() && amount.rank() > 0,
        notional is Ok <==> amount.is_finite() && amount.rank() > 0,
        !amount.is_nan() && amount.rank() <= 0 ==> price == Err::<(), _>(
            ValidationError::OutOfRange("price"),
        ) && notional == Err::<(), _>(ValidationError::OutOfRange("notional")),
        amount.is_nan() || (!amount.is_finite() && amount.rank() > 0) ==> price == Err::<(), _>(
            ValidationError::InvalidNumber("price"),
        ) && notional == Err::<(), _>(ValidationError::InvalidNumber("notional")),
{
}

/// An order id is accepted just where it is not empty and has no more bytes than the limit.
pub proof fn law_order_id_is_accepted(v: RequestValidator, id: &str, r: ValidationResult)
    requires
        call_ensures(RequestValidator::validate_order_id, (&v, id), r),
    ensures
        r is Ok <==> 0 < id@.len() && crate::text::byte_len(id@) <= v.config.max_order_id_length,
        id@.len() == 0 ==> r == Err::<(), _>(ValidationError::EmptyField("order_id")),
        id@.len() > 0 && r is Err ==> r == Err::<(), _>(
            ValidationError::TooLong("order_id", v.config.max_order_id_length),
        ),
{
}

/// What an error says names the field and what is wrong with it.
pub proof fn law_error_names_its_field(field: &'static str, max: usize)
    ensures
        ValidationError::EmptyField(field).text() == field@ + " cannot be empty"@,
        ValidationError::TooLong(field, max).text() == field@ + " too long (max "@
            + crate::text::decimal(max as nat) + " chars)"@,
        ValidationError::InvalidCharacters(field).text() == field@
            + " contains invalid characters"@,
        ValidationError::OutOfRange(field).text() == field@ + " out of range"@,
        ValidationError::InvalidNumber(field).text() == field@ + " must be a valid number"@,
{
}

} // verus!
