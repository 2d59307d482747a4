//! The currencies that the business can be configured with.

use vstd::prelude::*;
use vstd::string::*;

use crate::text::same_text;
use crate::views;

verus! {

broadcast use crate::views::group_views;

/// A currency to choose from.
#[derive(Clone)]
pub struct CurrencyOption {
    pub code: String,
    pub display_name: String,
}

/// A currency to choose from, as text.
pub struct CurrencyView {
    pub code: Seq<char>,
    pub display_name: Seq<char>,
}

impl View for CurrencyOption {
    type V = CurrencyView;

    open spec fn view(&self) -> CurrencyView {
        CurrencyView { code: self.code@, display_name: self.display_name@ }
    }
}

/// A currency with this code and name.
pub open spec fn currency(code: Seq<char>, display_name: Seq<char>) -> CurrencyView {
    CurrencyView { code, display_name }
}

/// The currencies that are known by name, in the order of their codes.
pub open spec fn catalog() -> Seq<CurrencyView> {
    seq![
        currency("ARS"@, "Argentine Peso"@),
        currency("AUD"@, "Australian Dollar"@),
        currency("BRL"@, "Brazilian Real"@),
        currency("CAD"@, "Canadian Dollar"@),
        currency("EUR"@, "Euro"@),
        currency("GBP"@, "British Pound"@),
        currency("JPY"@, "Japanese Yen"@),
        currency("MXN"@, "Mexican Peso"@),
        currency("USD"@, "United States Dollar"@),
        currency("UYU"@, "Uruguayan Peso"@),
    ]
}

/// Whether the catalog has a currency with this code.
pub open spec fn is_known(code: Seq<char>) -> bool {
    exists|i: int| 0 <= i < catalog().len() && (#[trigger] catalog()[i]).code == code
}

fn known(code: &str, display_name: &str) -> (option: CurrencyOption)
    ensures
        option@ == currency(code@, display_name@),
{
    CurrencyOption { code: code.to_owned(), display_name: display_name.to_owned() }
}

fn known_currencies() -> (options: Vec<CurrencyOption>)
    ensures
        views::views(options@) == catalog(),
{
    let mut options: Vec<CurrencyOption> = Vec::new();
    options.push(known("ARS", "Argentine Peso"));
    options.push(known("AUD", "Australian Dollar"));
    options.push(known("BRL", "Brazilian Real"));
    options.push(known("CAD", "Canadian Dollar"));
    options.push(known("EUR", "Euro"));
    options.push(known("GBP", "British Pound"));
    options.push(known("JPY", "Japanese Yen"));
    options.push(known("MXN", "Mexican Peso"));
    options.push(known("USD", "United States Dollar"));
    options.push(known("UYU", "Uruguayan Peso"));
    proof {
        assert(views::views(options@) =~= catalog());
    }
    options
}

/// The choices while `current` is configured: the catalog, and after it the current
/// code under its own name where the catalog lacks it.
pub open spec fn choices(current: Seq<char>) -> Seq<CurrencyView> {
    if is_known(current) {
        catalog()
    } else {
        catalog().push(currency(current, current))
    }
}

/// The currencies to choose from, the configured one always among them.
pub fn currency_options(current_code: &str) -> (options: Vec<CurrencyOption>)
    ensures
        views::views(options@) == choices(current_code@),
{
    let mut options = known_currencies();
    let mut i: usize = 0;
    while i < options.len()
        invariant
            i <= options.len(),
            views::views(options@) == catalog(),
            forall|k: int| 0 <= k < i ==> (#[trigger] catalog()[k]).code != current_code@,
        decreases options.len() - i,
    {
        proof {
            assert(views::views(options@)[i as int] == options@[i as int]@);
        }
        if same_text(options[i].code.as_str(), current_code) {
            return options;
        }
        i = i + 1;
    }
    proof {
        assert(views::views(options@).len() == options@.len());
    }
    options.push(known(current_code, current_code));
    proof {
        assert(views::views(options@) =~= catalog().push(currency(current_code@, current_code@)));
    }
    options
}

/// The configured code is always a choice, and the only one with its code.
pub proof fn the_current_code_is_offered_once(current: Seq<char>)
    ensures
        exists|i: int|
            0 <= i < choices(current).len() && (#[trigger] choices(current)[i]).code == current,
        forall|i: int, j: int|
            0 <= i < j < choices(current).len() ==> (#[trigger] choices(current)[i]).code != (
            #[trigger] choices(current)[j]).code,
{
    reveal_strlit("ARS");
    reveal_strlit("AUD");
    reveal_strlit("BRL");
    reveal_strlit("CAD");
    reveal_strlit("EUR");
    reveal_strlit("GBP");
    reveal_strlit("JPY");
    reveal_strlit("MXN");
    reveal_strlit("USD");
    reveal_strlit("UYU");
    assert forall|i: int, j: int| 0 <= i < j < catalog().len() implies (#[trigger] catalog()[i]).code
        != (#[trigger] catalog()[j]).code by {
        let a = catalog()[i].code;
        let b = catalog()[j].code;
        assert(a[0] != b[0] || a[1] != b[1] || a[2] != b[2]);
    }
    if is_known(current) {
        let k = choose|k: int| 0 <= k < catalog().len() && (#[trigger] catalog()[k]).code == current;
        assert(choices(current)[k].code == current);
    } else {
        assert(choices(current)[10].code == current);
        assert forall|i: int, j: int| 0 <= i < j < choices(current).len() implies (
        #[trigger] choices(current)[i]).code != (#[trigger] choices(current)[j]).code by {
            assert(choices(current)[i] == catalog()[i]);
            if j < 10 {
                assert(choices(current)[j] == catalog()[j]);
            }
        }
    }
}

/// The choices are the ten known currencies, in the order of their codes, each under its
/// own name, and behind them the configured code, under itself, where it is none of them.
pub proof fn these_currencies_are_offered(current: Seq<char>)
    ensures
        ({
            let shown = choices(current);
            let known = current == "ARS"@ || current == "AUD"@ || current == "BRL"@ || current
                == "CAD"@ || current == "EUR"@ || current == "GBP"@ || current == "JPY"@ || current
                == "MXN"@ || current == "USD"@ || current == "UYU"@;
            &&& shown.len() == if known {
                10int
            } else {
                11
            }
            &&& !known ==> shown[10].code == current && shown[10].display_name == current
            &&& shown[0].code == "ARS"@ && shown[0].display_name == "Argentine Peso"@
            &&& shown[1].code == "AUD"@ && shown[1].display_name == "Australian Dollar"@
            &&& shown[2].code == "BRL"@ && shown[2].display_name == "Brazilian Real"@
            &&& shown[3].code == "CAD"@ && shown[3].display_name == "Canadian Dollar"@
            &&& shown[4].code == "EUR"@ && shown[4].display_name == "Euro"@
            &&& shown[5].code == "GBP"@ && shown[5].display_name == "British Pound"@
            &&& shown[6].code == "JPY"@ && shown[6].display_name == "Japanese Yen"@
            &&& shown[7].code == "MXN"@ && shown[7].display_name == "Mexican Peso"@
            &&& shown[8].code == "USD"@ && shown[8].display_name == "United States Dollar"@
            &&& shown[9].code == "UYU"@ && shown[9].display_name == "Uruguayan Peso"@
        }),
{
    let all = catalog();
    assert(all[0].code == "ARS"@);
    assert(all[1].code == "AUD"@);
    assert(all[2].code == "BRL"@);
    assert(all[3].code == "CAD"@);
    assert(all[4].code == "EUR"@);
    assert(all[5].code == "GBP"@);
    assert(all[6].code == "JPY"@);
    assert(all[7].code == "MXN"@);
    assert(all[8].code == "USD"@);
    assert(all[9].code == "UYU"@);
}

} // verus!
