//! The brand rule table.
//!
//! One record per issuing network, in precedence order: when a number
//! satisfies more than one brand's pattern, the earlier rule in this table
//! wins.  The order is policy, not accident — the narrow Brazilian ranges
//! (Elo above all, Aura above the generic rules that share its prefixes)
//! stand above the international brands.  The table is fixed data: it is
//! built afresh by `brand_rules` and never mutated.

use vstd::prelude::*;

verus! {

/// One brand rule: the identifier every lookup is keyed by, display
/// metadata, the accepted digit counts, and the three patterns (BIN prefix,
/// full number, CVV).  The full pattern may embed a length assertion that
/// the engine strips and enforces separately.
pub struct Brand {
    pub name: String,
    pub scheme: String,
    pub brand: String,
    pub brand_type: String,
    pub number_lengths: Vec<usize>,
    pub regexp_bin: String,
    pub regexp_full: String,
    pub regexp_cvv: String,
}

/// The mathematical image of a brand rule.
pub struct BrandView {
    pub name: Seq<char>,
    pub scheme: Seq<char>,
    pub brand: Seq<char>,
    pub brand_type: Seq<char>,
    pub number_lengths: Seq<usize>,
    pub regexp_bin: Seq<char>,
    pub regexp_full: Seq<char>,
    pub regexp_cvv: Seq<char>,
}

impl View for Brand {
    type V = BrandView;

    open spec fn view(&self) -> BrandView {
        BrandView {
            name: self.name@,
            scheme: self.scheme@,
            brand: self.brand@,
            brand_type: self.brand_type@,
            number_lengths: self.number_lengths@,
            regexp_bin: self.regexp_bin@,
            regexp_full: self.regexp_full@,
            regexp_cvv: self.regexp_cvv@,
        }
    }
}

/// The views of a sequence of brand rules.
pub open spec fn table_views(v: Seq<Brand>) -> Seq<BrandView> {
    v.map_values(|b: Brand| b@)
}

pub open spec fn spec_elo() -> BrandView {
    BrandView {
        name: "elo"@,
        scheme: "elo"@,
        brand: "Elo"@,
        brand_type: "credit"@,
        number_lengths: seq![16usize],
        regexp_bin: "^(40117[89]|431274|438935|451416|457393|45763[12]|504175|506699|5067|509|627780|636297|636368|650|6516|655)"@,
        regexp_full: "^(?=.{16}$)(40117[89]|431274|438935|451416|457393|45763[12]|504175|506699|5067[0-6][0-9]|50677[0-8]|509[0-9]{3}|627780|636297|636368|65003[1-3]|65003[5-9]|65004[0-9]|65005[0-1]|65040[5-9]|6504[1-9][0-9]|65054[1-9]|6505[5-9][0-9]|65070[0-9]|65071[0-8]|65090[1-9]|6509[1-7][0-9]|65165[2-9]|6516[6-7][0-9]|65500[0-9]|65501[0-9]|65502[1-9]|6550[3-5][0-9])[0-9]*$"@,
        regexp_cvv: "^[0-9]{3}$"@,
    }
}

pub open spec fn spec_aura() -> BrandView {
    BrandView {
        name: "aura"@,
        scheme: "aura"@,
        brand: "Aura"@,
        brand_type: "credit"@,
        number_lengths: seq![16usize, 17usize, 18usize, 19usize],
        regexp_bin: "^50"@,
        regexp_full: "^(?=.{16,19}$)50[0-9]+$"@,
        regexp_cvv: "^[0-9]{3}$"@,
    }
}

pub open spec fn spec_diners() -> BrandView {
    BrandView {
        name: "diners"@,
        scheme: "diners"@,
        brand: "Diners Club"@,
        brand_type: "credit"@,
        number_lengths: seq![14usize],
        regexp_bin: "^3(0[0-5]|[68])"@,
        regexp_full: "^3(0[0-5]|[68][0-9])[0-9]{11}$"@,
        regexp_cvv: "^[0-9]{3}$"@,
    }
}

pub open spec fn spec_discover() -> BrandView {
    BrandView {
        name: "discover"@,
        scheme: "discover"@,
        brand: "Discover"@,
        brand_type: "credit"@,
        number_lengths: seq![16usize],
        regexp_bin: "^6(011|5)"@,
        regexp_full: "^6(011|5[0-9]{2})[0-9]{12}$"@,
        regexp_cvv: "^[0-9]{3}$"@,
    }
}

pub open spec fn spec_amex() -> BrandView {
    BrandView {
        name: "amex"@,
        scheme: "amex"@,
        brand: "American Express"@,
        brand_type: "credit"@,
        number_lengths: seq![15usize],
        regexp_bin: "^3[47]"@,
        regexp_full: "^(?=.{15}$)3[47][0-9]+$"@,
        regexp_cvv: "^[0-9]{4}$"@,
    }
}

pub open spec fn spec_hipercard() -> BrandView {
    BrandView {
        name: "hipercard"@,
        scheme: "hipercard"@,
        brand: "Hipercard"@,
        brand_type: "credit"@,
        number_lengths: seq![16usize, 19usize],
        regexp_bin: "^(606282|3841)"@,
        regexp_full: "^(606282[0-9]{10}|3841[0-9]{15})$"@,
        regexp_cvv: "^[0-9]{3}$"@,
    }
}

pub open spec fn spec_mastercard() -> BrandView {
    BrandView {
        name: "mastercard"@,
        scheme: "mastercard"@,
        brand: "Mastercard"@,
        brand_type: "credit"@,
        number_lengths: seq![16usize],
        regexp_bin: "^(5[1-5]|2[2-7])"@,
        regexp_full: "^(5[1-5][0-9]{14}|2(2[2-9][0-9]{2}|[3-6][0-9]{3}|7[01][0-9]{2}|720[0-9])[0-9]{11})$"@,
        regexp_cvv: "^[0-9]{3}$"@,
    }
}

pub open spec fn spec_visa() -> BrandView {
    BrandView {
        name: "visa"@,
        scheme: "visa"@,
        brand: "Visa"@,
        brand_type: "credit"@,
        number_lengths: seq![13usize, 16usize, 19usize],
        regexp_bin: "^(4|636700)"@,
        regexp_full: "^(4[0-9]{12}([0-9]{3})?([0-9]{3})?|636700[0-9]{10})$"@,
        regexp_cvv: "^[0-9]{3}$"@,
    }
}

/// The whole table, in precedence order.
pub open spec fn spec_brands() -> Seq<BrandView> {
    seq![
        spec_elo(),
        spec_aura(),
        spec_diners(),
        spec_discover(),
        spec_amex(),
        spec_hipercard(),
        spec_mastercard(),
        spec_visa(),
    ]
}

/// The table is well formed: it is never empty, every rule's scheme equals
/// its identifier, and identifiers are unique across the table.
pub proof fn lemma_table_well_formed()
    ensures
        spec_brands().len() > 0,
        forall|i: int|
            0 <= i < spec_brands().len() ==> (#[trigger] spec_brands()[i]).scheme
                == spec_brands()[i].name,
        forall|i: int, j: int|
            #![trigger spec_brands()[i].name, spec_brands()[j].name]
            0 <= i < j < spec_brands().len() ==> spec_brands()[i].name != spec_brands()[j].name,
{
    assert forall|i: int, j: int| 0 <= i < j < spec_brands().len() implies spec_brands()[i].name
        != spec_brands()[j].name by {
        reveal_strlit("elo");
        reveal_strlit("aura");
        reveal_strlit("diners");
        reveal_strlit("discover");
        reveal_strlit("amex");
        reveal_strlit("hipercard");
        reveal_strlit("mastercard");
        reveal_strlit("visa");
        assert(("elo"@).len() == 3);
        assert(("aura"@).len() == 4);
        assert(("diners"@).len() == 6);
        assert(("discover"@).len() == 8);
        assert(("amex"@).len() == 4);
        assert(("hipercard"@).len() == 9);
        assert(("mastercard"@).len() == 10);
        assert(("visa"@).len() == 4);
        assert(("aura"@)[0] == 'a');
        assert(("amex"@)[0] == 'a');
        assert(("visa"@)[0] == 'v');
        assert(("aura"@)[1] == 'u');
        assert(("amex"@)[1] == 'm');
    }
}

fn make_brand(
    name: &str,
    brand: &str,
    brand_type: &str,
    number_lengths: Vec<usize>,
    regexp_bin: &str,
    regexp_full: &str,
    regexp_cvv: &str,
) -> (b: Brand)
    ensures
        b@ == (BrandView {
            name: name@,
            scheme: name@,
            brand: brand@,
            brand_type: brand_type@,
            number_lengths: number_lengths@,
            regexp_bin: regexp_bin@,
            regexp_full: regexp_full@,
            regexp_cvv: regexp_cvv@,
        }),
{
    Brand {
        name: name.to_owned(),
        scheme: name.to_owned(),
        brand: brand.to_owned(),
        brand_type: brand_type.to_owned(),
        number_lengths,
        regexp_bin: regexp_bin.to_owned(),
        regexp_full: regexp_full.to_owned(),
        regexp_cvv: regexp_cvv.to_owned(),
    }
}

fn lengths1(a: usize) -> (v: Vec<usize>)
    ensures
        v@ == seq![a],
{
    let mut v: Vec<usize> = Vec::new();
    v.push(a);
    proof {
        assert(v@ =~= seq![a]);
    }
    v
}

fn lengths2(a: usize, b: usize) -> (v: Vec<usize>)
    ensures
        v@ == seq![a, b],
{
    let mut v: Vec<usize> = Vec::new();
    v.push(a);
    v.push(b);
    proof {
        assert(v@ =~= seq![a, b]);
    }
    v
}

fn lengths3(a: usize, b: usize, c: usize) -> (v: Vec<usize>)
    ensures
        v@ == seq![a, b, c],
{
    let mut v: Vec<usize> = Vec::new();
    v.push(a);
    v.push(b);
    v.push(c);
    proof {
        assert(v@ =~= seq![a, b, c]);
    }
    v
}

fn lengths4(a: usize, b: usize, c: usize, d: usize) -> (v: Vec<usize>)
    ensures
        v@ == seq![a, b, c, d],
{
    let mut v: Vec<usize> = Vec::new();
    v.push(a);
    v.push(b);
    v.push(c);
    v.push(d);
    proof {
        assert(v@ =~= seq![a, b, c, d]);
    }
    v
}

/// Builds the brand rule table, in precedence order.
pub fn brand_rules() -> (v: Vec<Brand>)
    ensures
        table_views(v@) == spec_brands(),
{
    let mut v: Vec<Brand> = Vec::new();
    v.push(make_brand(
        "elo",
        "Elo",
        "credit",
        lengths1(16),
        "^(40117[89]|431274|438935|451416|457393|45763[12]|504175|506699|5067|509|627780|636297|636368|650|6516|655)",
        "^(?=.{16}$)(40117[89]|431274|438935|451416|457393|45763[12]|504175|506699|5067[0-6][0-9]|50677[0-8]|509[0-9]{3}|627780|636297|636368|65003[1-3]|65003[5-9]|65004[0-9]|65005[0-1]|65040[5-9]|6504[1-9][0-9]|65054[1-9]|6505[5-9][0-9]|65070[0-9]|65071[0-8]|65090[1-9]|6509[1-7][0-9]|65165[2-9]|6516[6-7][0-9]|65500[0-9]|65501[0-9]|65502[1-9]|6550[3-5][0-9])[0-9]*$",
        "^[0-9]{3}$",
    ));
    v.push(make_brand(
        "aura",
        "Aura",
        "credit",
        lengths4(16, 17, 18, 19),
        "^50",
        "^(?=.{16,19}$)50[0-9]+$",
        "^[0-9]{3}$",
    ));
    v.push(make_brand(
        "diners",
        "Diners Club",
        "credit",
        lengths1(14),
        "^3(0[0-5]|[68])",
        "^3(0[0-5]|[68][0-9])[0-9]{11}$",
        "^[0-9]{3}$",
    ));
    v.push(make_brand(
        "discover",
        "Discover",
        "credit",
        lengths1(16),
        "^6(011|5)",
        "^6(011|5[0-9]{2})[0-9]{12}$",
        "^[0-9]{3}$",
    ));
    v.push(make_brand(
        "amex",
        "American Express",
        "credit",
        lengths1(15),
        "^3[47]",
        "^(?=.{15}$)3[47][0-9]+$",
        "^[0-9]{4}$",
    ));
    v.push(make_brand(
        "hipercard",
        "Hipercard",
        "credit",
        lengths2(16, 19),
        "^(606282|3841)",
        "^(606282[0-9]{10}|3841[0-9]{15})$",
        "^[0-9]{3}$",
    ));
    v.push(make_brand(
        "mastercard",
        "Mastercard",
        "credit",
        lengths1(16),
        "^(5[1-5]|2[2-7])",
        "^(5[1-5][0-9]{14}|2(2[2-9][0-9]{2}|[3-6][0-9]{3}|7[01][0-9]{2}|720[0-9])[0-9]{11})$",
        "^[0-9]{3}$",
    ));
    v.push(make_brand(
        "visa",
        "Visa",
        "credit",
        lengths3(13, 16, 19),
        "^(4|636700)",
        "^(4[0-9]{12}([0-9]{3})?([0-9]{3})?|636700[0-9]{10})$",
        "^[0-9]{3}$",
    ));
    proof {
        assert(table_views(v@) =~= spec_brands());
    }
    v
}

} // verus!
