use vstd::arithmetic::div_mod::lemma_fundamental_div_mod_converse;
use vstd::prelude::*;

use crate::data::{all_well_formed, Animal, FieldValue};

verus! {

/// The base-ten digit `d` as a character.
pub open spec fn digit_char(d: nat) -> char {
    ((d + 48) as u8) as char
}

/// The base-ten rendering of `n`, without sign or padding.
pub open spec fn decimal(n: nat) -> Seq<char>
    decreases n,
{
    if n < 10 {
        seq![digit_char(n)]
    } else {
        decimal(n / 10).push(digit_char(n % 10))
    }
}

/// Relies on `ToString` for `usize`, which goes through its `Display`: the
/// base-ten digits of the number, without sign or padding.
#[verifier::external_body]
fn decimal_string(n: usize) -> (r: String)
    ensures
        r@ == decimal(n as nat),
{
    n.to_string()
}

/// The name of the `i`-th generated record of kind `kind`.
pub open spec fn fixture_name(kind: Seq<char>, i: nat) -> Seq<char> {
    kind + " "@ + decimal(i)
}

/// The value is the text `t`.
pub open spec fn text_value(v: FieldValue, t: Seq<char>) -> bool {
    match v {
        FieldValue::String(s) => s@ == t,
        FieldValue::Number(_) => false,
    }
}

/// The kinds that records can be generated for.
pub open spec fn fixture_kind(kind: Seq<char>) -> bool {
    kind == "Dog"@ || kind == "Cat"@ || kind == "Elephant"@
}

/// `a` is the `i`-th generated record of kind `kind`: a `Dog` with the breed
/// `Retriever`, a `Cat` with long fur, or an `Elephant` aged `i`.
pub open spec fn is_fixture(a: Animal, kind: Seq<char>, i: nat) -> bool {
    &&& a.wf()
    &&& a.name@ == fixture_name(kind, i)
    &&& a.kind@ == kind
    &&& kind == "Dog"@ ==> a.fields@.dom() == set!["breed"@] && text_value(
        a.fields@["breed"@],
        "Retriever"@,
    )
    &&& kind == "Cat"@ ==> a.fields@.dom() == set!["fur"@] && text_value(a.fields@["fur"@], "long"@)
    &&& kind == "Elephant"@ ==> a.fields@.dom() == set!["age"@] && a.fields@["age"@]
        == FieldValue::Number(i as i32)
}

/// The name `<kind> <i>`.
fn fixture_name_string(i: usize, kind: &String) -> (r: String)
    ensures
        r@ == fixture_name(kind@, i as nat),
{
    let digits = decimal_string(i);
    kind.clone().concat(" ").concat(digits.as_str())
}

/// The `i`-th `Dog`: breed `Retriever`.
pub fn dog(i: usize, kind: &String) -> (r: Animal)
    ensures
        r.wf(),
        r.name@ == fixture_name(kind@, i as nat),
        r.kind@ == kind@,
        r.fields@.dom() == set!["breed"@],
        text_value(r.fields@["breed"@], "Retriever"@),
{
    let mut a = Animal::new(fixture_name_string(i, kind), kind.clone());
    a.set_field(String::from_str("breed"), FieldValue::String(String::from_str("Retriever")));
    assert(a.fields@.dom() =~= set!["breed"@]);
    a
}

/// The `i`-th `Cat`: long fur.
pub fn cat(i: usize, kind: &String) -> (r: Animal)
    ensures
        r.wf(),
        r.name@ == fixture_name(kind@, i as nat),
        r.kind@ == kind@,
        r.fields@.dom() == set!["fur"@],
        text_value(r.fields@["fur"@], "long"@),
{
    let mut a = Animal::new(fixture_name_string(i, kind), kind.clone());
    a.set_field(String::from_str("fur"), FieldValue::String(String::from_str("long")));
    assert(a.fields@.dom() =~= set!["fur"@]);
    a
}

/// The `i`-th `Elephant`: aged `i`, as a 32-bit integer.
pub fn elephant(i: usize, kind: &String) -> (r: Animal)
    ensures
        r.wf(),
        r.name@ == fixture_name(kind@, i as nat),
        r.kind@ == kind@,
        r.fields@.dom() == set!["age"@],
        r.fields@["age"@] == FieldValue::Number(i as i32),
{
    let mut a = Animal::new(fixture_name_string(i, kind), kind.clone());
    a.set_field(String::from_str("age"), FieldValue::Number(i as i32));
    assert(a.fields@.dom() =~= set!["age"@]);
    a
}

/// Generates `amount / animal_kinds.len()` records of each kind, kind after
/// kind: record `j` is the `(j % per)`-th of kind `animal_kinds[j / per]`.
pub fn generate_animals(animal_kinds: &Vec<String>, amount: usize) -> (r: Vec<Animal>)
    requires
        animal_kinds@.len() > 0,
        forall|k: int| 0 <= k < animal_kinds@.len() ==> fixture_kind(#[trigger] animal_kinds@[k]@),
    ensures
        r@.len() == animal_kinds@.len() * (amount as int / animal_kinds@.len() as int),
        all_well_formed(r@),
        forall|j: int|
            0 <= j < r@.len() ==> is_fixture(
                #[trigger] r@[j],
                animal_kinds@[j / (amount as int / animal_kinds@.len() as int)]@,
                (j % (amount as int / animal_kinds@.len() as int)) as nat,
            ),
{
    let n = animal_kinds.len();
    let per = amount / n;
    proof {
        assert(n * per <= amount) by (nonlinear_arith)
            requires
                per == amount as int / n as int,
                n > 0,
        ;
    }
    let dog_kind = String::from_str("Dog");
    let cat_kind = String::from_str("Cat");
    let mut result: Vec<Animal> = Vec::new();
    let mut k: usize = 0;
    while k < n
        invariant
            n == animal_kinds@.len(),
            n > 0,
            per == amount as int / n as int,
            n * per <= amount,
            k <= n,
            dog_kind@ == "Dog"@,
            cat_kind@ == "Cat"@,
            forall|q: int| 0 <= q < n ==> fixture_kind(#[trigger] animal_kinds@[q]@),
            result@.len() == k * per,
            forall|j: int|
                0 <= j < result@.len() ==> is_fixture(
                    #[trigger] result@[j],
                    animal_kinds@[j / per as int]@,
                    (j % per as int) as nat,
                ),
        decreases n - k,
    {
        let kind = &animal_kinds[k];
        let mut i: usize = 0;
        proof {
            assert((k + 1) * per <= n * per) by (nonlinear_arith)
                requires
                    k < n,
                    per >= 0,
            ;
            assert((k + 1) * per == k * per + per) by (nonlinear_arith);
        }
        while i < per
            invariant
                n == animal_kinds@.len(),
                per == amount as int / n as int,
                k < n,
                kind == animal_kinds@[k as int],
                fixture_kind(kind@),
                dog_kind@ == "Dog"@,
                cat_kind@ == "Cat"@,
                k * per + per <= amount,
                i <= per,
                result@.len() == k * per + i,
                forall|j: int|
                    0 <= j < result@.len() ==> is_fixture(
                        #[trigger] result@[j],
                        animal_kinds@[j / per as int]@,
                        (j % per as int) as nat,
                    ),
            decreases per - i,
        {
            let animal = if *kind == dog_kind {
                dog(i, kind)
            } else if *kind == cat_kind {
                cat(i, kind)
            } else {
                elephant(i, kind)
            };
            proof {
                reveal_strlit("Dog");
                reveal_strlit("Cat");
                reveal_strlit("Elephant");
                assert("Dog"@[0] != "Cat"@[0]);
                assert("Dog"@.len() != "Elephant"@.len());
                assert("Cat"@.len() != "Elephant"@.len());
                assert(is_fixture(animal, kind@, i as nat));
                lemma_fundamental_div_mod_converse(
                    (k * per + i) as int,
                    per as int,
                    k as int,
                    i as int,
                );
            }
            let ghost before = result@;
            result.push(animal);
            proof {
                assert forall|j: int| 0 <= j < result@.len() implies is_fixture(
                    #[trigger] result@[j],
                    animal_kinds@[j / per as int]@,
                    (j % per as int) as nat,
                ) by {
                    if j < before.len() {
                        assert(result@[j] == before[j]);
                    }
                }
            }
            i = i + 1;
        }
        k = k + 1;
    }
    result
}

} // verus!
