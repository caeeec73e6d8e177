//! Instrument metadata: the symbols a venue trades and the currencies they
//! involve.

use vstd::prelude::*;

use crate::exchange::Exchange;
use crate::tables::str_table_view;

verus! {

/// The precision a venue reports for a symbol when it reported none at all:
/// such symbols are not supported for trading.
pub const SYMBOL_DEFAULT_PRECISION: i64 = -1;

/// One tradable instrument as the venue describes it: currency codes and
/// identifiers of both legs, and the reported precisions.
#[derive(Clone, Debug)]
pub struct Symbol {
    pub base_currency_code: String,
    pub base_currency_id: String,
    pub quote_currency_code: String,
    pub quote_currency_id: String,
    pub amount_precision: i64,
    pub price_precision: i64,
}

/// Whether a symbol carries real precisions and is therefore supported.
pub open spec fn symbol_supported(s: Symbol) -> bool {
    s.amount_precision != SYMBOL_DEFAULT_PRECISION && s.price_precision
        != SYMBOL_DEFAULT_PRECISION
}

/// The supported symbols of a list, in order.
pub open spec fn supported_of(s: Seq<Symbol>) -> Seq<Symbol>
    decreases s.len(),
{
    if s.len() == 0 {
        Seq::empty()
    } else if symbol_supported(s.last()) {
        supported_of(s.drop_last()).push(s.last())
    } else {
        supported_of(s.drop_last())
    }
}

/// Base and quote currency code of each symbol, flattened in order.
pub open spec fn flat_codes(s: Seq<Symbol>) -> Seq<String>
    decreases s.len(),
{
    if s.len() == 0 {
        Seq::empty()
    } else {
        flat_codes(s.drop_last()) + seq![
            s.last().base_currency_code,
            s.last().quote_currency_code,
        ]
    }
}

/// A list with adjacent repetitions (equal as character sequences)
/// collapsed, as the currency list is stored.
pub open spec fn dedup_adjacent(s: Seq<String>) -> Seq<String>
    decreases s.len(),
{
    if s.len() <= 1 {
        s
    } else if s[s.len() - 2]@ == s.last()@ {
        dedup_adjacent(s.drop_last())
    } else {
        dedup_adjacent(s.drop_last()).push(s.last())
    }
}

/// The currency code-to-identifier pairs of each symbol, base then quote,
/// flattened in order.
pub open spec fn currency_pairs(s: Seq<Symbol>) -> Seq<(String, String)>
    decreases s.len(),
{
    if s.len() == 0 {
        Seq::empty()
    } else {
        currency_pairs(s.drop_last()) + seq![
            (s.last().base_currency_code, s.last().base_currency_id),
            (s.last().quote_currency_code, s.last().quote_currency_id),
        ]
    }
}

/// A map after the given pairs were inserted in order: a later pair for the
/// same code wins.
pub open spec fn insert_pairs(
    m: Map<Seq<char>, Seq<char>>,
    ps: Seq<(String, String)>,
) -> Map<Seq<char>, Seq<char>>
    decreases ps.len(),
{
    if ps.len() == 0 {
        m
    } else {
        insert_pairs(m, ps.drop_last()).insert(ps.last().0@, ps.last().1@)
    }
}

impl Exchange {
    /// Stores the venue's symbols and the currency list derived from them:
    /// base and quote code of each symbol in order, with adjacent
    /// repetitions collapsed.
    pub fn set_symbols(&mut self, symbols: Vec<Symbol>)
        requires
            old(self).wf(),
        ensures
            final(self).wf(),
            final(self).symbols@ == symbols@,
            final(self).currencies@ == dedup_adjacent(flat_codes(symbols@)),
            final(self).supported_symbols@ == old(self).supported_symbols@,
            str_table_view(final(self).supported_currencies) == str_table_view(
                old(self).supported_currencies,
            ),
            final(self).flow() == old(self).flow(),
    {
        let mut flat: Vec<String> = Vec::new();
        let mut i: usize = 0;
        while i < symbols.len()
            invariant
                i <= symbols.len(),
                flat@ == flat_codes(symbols@.subrange(0, i as int)),
            decreases symbols.len() - i,
        {
            flat.push(symbols[i].base_currency_code.clone());
            flat.push(symbols[i].quote_currency_code.clone());
            proof {
                let head = symbols@.subrange(0, (i + 1) as int);
                assert(head.drop_last() =~= symbols@.subrange(0, i as int));
                assert(flat@ =~= flat_codes(head));
            }
            i += 1;
        }
        proof {
            assert(symbols@.subrange(0, symbols@.len() as int) =~= symbols@);
        }
        let mut currencies: Vec<String> = Vec::new();
        let mut j: usize = 0;
        while j < flat.len()
            invariant
                j <= flat.len(),
                currencies@ == dedup_adjacent(flat@.subrange(0, j as int)),
            decreases flat.len() - j,
        {
            if j == 0 || !flat[j].eq(&flat[j - 1]) {
                currencies.push(flat[j].clone());
            }
            proof {
                let head = flat@.subrange(0, (j + 1) as int);
                assert(head.drop_last() =~= flat@.subrange(0, j as int));
                assert(currencies@ =~= dedup_adjacent(head));
            }
            j += 1;
        }
        proof {
            assert(flat@.subrange(0, flat@.len() as int) =~= flat@);
        }
        self.currencies = currencies;
        self.symbols = symbols;
    }

    /// The symbols whose precisions the venue actually reported; the rest
    /// cannot be traded and are left out.
    pub fn filter_supported_symbols(symbols: Vec<Symbol>) -> (r: Vec<Symbol>)
        ensures
            r@ == supported_of(symbols@),
    {
        let ghost orig = symbols@;
        let mut rest = symbols;
        let mut r: Vec<Symbol> = Vec::new();
        while rest.len() > 0
            invariant
                supported_of(orig) == supported_of(rest@) + r@,
            decreases rest.len(),
        {
            let ghost rest_before = rest@;
            let ghost r_before = r@;
            let s = rest.pop().unwrap();
            if s.amount_precision != SYMBOL_DEFAULT_PRECISION && s.price_precision
                != SYMBOL_DEFAULT_PRECISION {
                r.insert(0, s);
                proof {
                    assert(r@ =~= seq![s] + r_before);
                    assert(supported_of(rest@).push(s) + r_before =~= supported_of(rest@) + r@);
                    assert(supported_of(rest_before) + r_before =~= supported_of(rest@) + r@);
                }
            } else {
                proof {
                    assert(supported_of(rest_before) =~= supported_of(rest@));
                }
            }
        }
        proof {
            assert(supported_of(rest@) + r@ =~= r@);
        }
        r
    }

    /// The currency code-to-identifier pairs of the given symbols, base and
    /// quote of each in order.
    pub fn get_supported_currencies(symbols: &Vec<Symbol>) -> (r: Vec<(String, String)>)
        ensures
            r@ == currency_pairs(symbols@),
    {
        let mut r: Vec<(String, String)> = Vec::new();
        let mut i: usize = 0;
        while i < symbols.len()
            invariant
                i <= symbols.len(),
                r@ == currency_pairs(symbols@.subrange(0, i as int)),
            decreases symbols.len() - i,
        {
            r.push(
                (symbols[i].base_currency_code.clone(), symbols[i].base_currency_id.clone()),
            );
            r.push(
                (symbols[i].quote_currency_code.clone(), symbols[i].quote_currency_id.clone()),
            );
            proof {
                let head = symbols@.subrange(0, (i + 1) as int);
                assert(head.drop_last() =~= symbols@.subrange(0, i as int));
                assert(r@ =~= currency_pairs(head));
            }
            i += 1;
        }
        proof {
            assert(symbols@.subrange(0, symbols@.len() as int) =~= symbols@);
        }
        r
    }

    /// Merges the given code-to-identifier pairs into the supported
    /// currencies; a later pair for the same code wins.
    pub fn set_supported_currencies(&mut self, pairs: &Vec<(String, String)>)
        requires
            old(self).wf(),
        ensures
            final(self).wf(),
            str_table_view(final(self).supported_currencies) == insert_pairs(
                str_table_view(old(self).supported_currencies),
                pairs@,
            ),
            final(self).flow() == old(self).flow(),
            final(self).symbols@ == old(self).symbols@,
            final(self).currencies@ == old(self).currencies@,
            final(self).supported_symbols@ == old(self).supported_symbols@,
    {
        let mut i: usize = 0;
        while i < pairs.len()
            invariant
                i <= pairs.len(),
                str_table_view(self.supported_currencies) == insert_pairs(
                    str_table_view(old(self).supported_currencies),
                    pairs@.subrange(0, i as int),
                ),
                self.wf(),
                self.flow() == old(self).flow(),
                self.symbols@ == old(self).symbols@,
                self.currencies@ == old(self).currencies@,
                self.supported_symbols@ == old(self).supported_symbols@,
            decreases pairs.len() - i,
        {
            let code = pairs[i].0.clone();
            let id = pairs[i].1.clone();
            self.supported_currencies.insert(code, id);
            proof {
                let head = pairs@.subrange(0, (i + 1) as int);
                assert(head.drop_last() =~= pairs@.subrange(0, i as int));
            }
            i += 1;
        }
        proof {
            assert(pairs@.subrange(0, pairs@.len() as int) =~= pairs@);
        }
    }

    /// Applies venue metadata once it was fetched: keeps the supported
    /// symbols and merges their currencies into the supported-currency map.
    /// Fetching itself, with its retry policy, is the caller's concern.
    pub fn apply_metadata(&mut self, symbols: Vec<Symbol>)
        requires
            old(self).wf(),
        ensures
            final(self).wf(),
            final(self).supported_symbols@ == supported_of(symbols@),
            str_table_view(final(self).supported_currencies) == insert_pairs(
                str_table_view(old(self).supported_currencies),
                currency_pairs(supported_of(symbols@)),
            ),
            final(self).symbols@ == old(self).symbols@,
            final(self).currencies@ == old(self).currencies@,
            final(self).flow() == old(self).flow(),
    {
        let supported = Self::filter_supported_symbols(symbols);
        let pairs = Self::get_supported_currencies(&supported);
        self.set_supported_currencies(&pairs);
        self.supported_symbols = supported;
    }
}

} // verus!
