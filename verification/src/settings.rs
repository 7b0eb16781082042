//! The instance settings table, read as key/value pairs.
use crate::text::{chars_of, parse_i64, parse_i64_spec, str_is};
use vstd::prelude::*;

verus! {

/// The value stored under `key`: the last pair with that key wins, as when
/// the rows are collected into a map in order.
pub open spec fn pairs_lookup(s: Seq<(Seq<char>, Seq<char>)>, key: Seq<char>) -> Option<Seq<char>>
    decreases s.len(),
{
    if s.len() == 0 {
        None
    } else if s.last().0 == key {
        Some(s.last().1)
    } else {
        pairs_lookup(s.drop_last(), key)
    }
}

/// Settings rows in the order they were read.
#[derive(Debug, Clone)]
pub struct Settings {
    pub pairs: Vec<(String, String)>,
}

pub open spec fn pair_view(p: (String, String)) -> (Seq<char>, Seq<char>) {
    (p.0@, p.1@)
}

/// The views of string pairs.
pub open spec fn pairs_view(v: Seq<(String, String)>) -> Seq<(Seq<char>, Seq<char>)> {
    v.map_values(|p: (String, String)| pair_view(p))
}

/// The first value stored under `key`.
pub open spec fn pairs_first(s: Seq<(Seq<char>, Seq<char>)>, key: Seq<char>) -> Option<Seq<char>>
    decreases s.len(),
{
    if s.len() == 0 {
        None
    } else if s[0].0 == key {
        Some(s[0].1)
    } else {
        pairs_first(s.drop_first(), key)
    }
}

/// The value of the last pair named `key` (as when the pairs are collected
/// into a map).
pub fn last_pair_value(pairs: &Vec<(String, String)>, key: &str) -> (r: Option<String>)
    ensures
        match r {
            Some(v) => pairs_lookup(pairs_view(pairs@), key@) == Some(v@),
            None => pairs_lookup(pairs_view(pairs@), key@) is None,
        },
{
    let ghost all = pairs_view(pairs@);
    let mut i: usize = pairs.len();
    assert(all.subrange(0, i as int) =~= all);
    while i > 0
        invariant
            i <= pairs.len(),
            all == pairs_view(pairs@),
            pairs_lookup(all, key@) == pairs_lookup(all.subrange(0, i as int), key@),
        decreases i,
    {
        let ghost prefix = all.subrange(0, i as int);
        assert(prefix.drop_last() =~= all.subrange(0, i - 1));
        let (k, v) = &pairs[i - 1];
        assert(pair_view(pairs@[i - 1]) == prefix.last());
        if str_is(k.as_str(), key) {
            return Some(v.clone());
        }
        i = i - 1;
    }
    None
}

/// The value of the first pair named `key`.
pub fn first_pair_value(pairs: &Vec<(String, String)>, key: &str) -> (r: Option<String>)
    ensures
        match r {
            Some(v) => pairs_first(pairs_view(pairs@), key@) == Some(v@),
            None => pairs_first(pairs_view(pairs@), key@) is None,
        },
{
    let ghost all = pairs_view(pairs@);
    let mut i: usize = 0;
    assert(all.subrange(0, all.len() as int) =~= all);
    while i < pairs.len()
        invariant
            i <= pairs.len(),
            all == pairs_view(pairs@),
            pairs_first(all, key@) == pairs_first(all.subrange(i as int, all.len() as int), key@),
        decreases pairs.len() - i,
    {
        let ghost rest = all.subrange(i as int, all.len() as int);
        assert(rest.drop_first() =~= all.subrange(i + 1, all.len() as int));
        let (k, v) = &pairs[i];
        assert(pair_view(pairs@[i as int]) == rest[0]);
        if str_is(k.as_str(), key) {
            return Some(v.clone());
        }
        i = i + 1;
    }
    None
}

impl View for Settings {
    type V = Seq<(Seq<char>, Seq<char>)>;

    open spec fn view(&self) -> Seq<(Seq<char>, Seq<char>)> {
        pairs_view(self.pairs@)
    }
}

impl Settings {
    /// No settings.
    pub fn new() -> (r: Self)
        ensures
            r@ == Seq::<(Seq<char>, Seq<char>)>::empty(),
    {
        let r = Settings { pairs: Vec::new() };
        assert(r@ =~= Seq::<(Seq<char>, Seq<char>)>::empty());
        r
    }

    /// Records one row; a later row overrides an earlier one with its key.
    pub fn insert(&mut self, key: String, value: String)
        ensures
            final(self)@ == old(self)@.push((key@, value@)),
    {
        self.pairs.push((key, value));
        assert(self@ =~= old(self)@.push((key@, value@)));
    }

    /// The value stored under `key`.
    pub fn get(&self, key: &str) -> (r: Option<String>)
        ensures
            match r {
                Some(v) => pairs_lookup(self@, key@) == Some(v@),
                None => pairs_lookup(self@, key@) is None,
            },
    {
        let mut i: usize = self.pairs.len();
        assert(self@.subrange(0, i as int) =~= self@);
        while i > 0
            invariant
                i <= self.pairs.len(),
                pairs_lookup(self@, key@) == pairs_lookup(self@.subrange(0, i as int), key@),
            decreases i,
        {
            let ghost prefix = self@.subrange(0, i as int);
            assert(prefix.drop_last() =~= self@.subrange(0, i - 1));
            let (k, v) = &self.pairs[i - 1];
            assert(pair_view(self.pairs@[i - 1]) == prefix.last());
            if str_is(k.as_str(), key) {
                return Some(v.clone());
            }
            i = i - 1;
        }
        None
    }

    /// Whether the value under `key` is exactly `"true"`.
    pub fn is_true(&self, key: &str) -> (r: bool)
        ensures
            r == (pairs_lookup(self@, key@) == Some("true"@)),
    {
        match self.get(key) {
            Some(v) => str_is(v.as_str(), "true"),
            None => false,
        }
    }
}

/// Reading back a setting gives the last value written under its key, and
/// writing one key leaves every other key as it was.
pub proof fn lemma_insert_then_get(
    s: Seq<(Seq<char>, Seq<char>)>,
    key: Seq<char>,
    value: Seq<char>,
    other: Seq<char>,
)
    ensures
        pairs_lookup(s.push((key, value)), key) == Some(value),
        other != key ==> pairs_lookup(s.push((key, value)), other) == pairs_lookup(s, other),
{
    assert(s.push((key, value)).drop_last() =~= s);
}

/// The number stored under `key`, or `default` when it is missing or not an
/// `i64`.
pub open spec fn setting_i64(s: Seq<(Seq<char>, Seq<char>)>, key: Seq<char>, default: i64) -> i64 {
    match pairs_lookup(s, key) {
        Some(v) => match parse_i64_spec(v) {
            Some(n) => n,
            None => default,
        },
        None => default,
    }
}

/// The settings the frontend may read.
#[derive(Debug, Clone, Copy, PartialEq, Eq, Structural)]
pub struct PublicSettings {
    pub founder_pricing_active: bool,
    pub min_random_code_length: i64,
    pub min_custom_code_length: i64,
    pub system_min_code_length: i64,
    pub active_discount_amount_pro_monthly: i64,
    pub active_discount_amount_pro_annual: i64,
    pub active_discount_amount_business_monthly: i64,
    pub active_discount_amount_business_annual: i64,
}

/// The built-in short code length minimums used when a setting is absent.
#[derive(Debug, Clone, Copy, PartialEq, Eq, Structural)]
pub struct CodeLengthDefaults {
    pub min_random: i64,
    pub min_custom: i64,
    pub system_min: i64,
}

pub open spec fn max_i64(a: i64, b: i64) -> i64 {
    if a >= b {
        a
    } else {
        b
    }
}

impl Settings {
    /// The number stored under `key`, or `default`.
    pub fn get_i64(&self, key: &str, default: i64) -> (r: i64)
        ensures
            r == setting_i64(self@, key@, default),
    {
        match self.get(key) {
            Some(v) => match parse_i64(chars_of(v.as_str()).as_slice()) {
                Some(n) => n,
                None => default,
            },
            None => default,
        }
    }

    /// The public settings: founder pricing, the short code minimums (never
    /// below the system minimum) and the four founder discount amounts (0 by
    /// default).
    pub fn public_settings(&self, defaults: CodeLengthDefaults) -> (r: PublicSettings)
        ensures
            r.founder_pricing_active == (pairs_lookup(self@, "founder_pricing_active"@) == Some(
                "true"@,
            )),
            r.system_min_code_length == setting_i64(
                self@,
                "system_min_code_length"@,
                defaults.system_min,
            ),
            r.min_random_code_length == max_i64(
                setting_i64(self@, "min_random_code_length"@, defaults.min_random),
                r.system_min_code_length,
            ),
            r.min_custom_code_length == max_i64(
                setting_i64(self@, "min_custom_code_length"@, defaults.min_custom),
                r.system_min_code_length,
            ),
            r.active_discount_amount_pro_monthly == setting_i64(
                self@,
                "active_discount_amount_pro_monthly"@,
                0,
            ),
            r.active_discount_amount_pro_annual == setting_i64(
                self@,
                "active_discount_amount_pro_annual"@,
                0,
            ),
            r.active_discount_amount_business_monthly == setting_i64(
                self@,
                "active_discount_amount_business_monthly"@,
                0,
            ),
            r.active_discount_amount_business_annual == setting_i64(
                self@,
                "active_discount_amount_business_annual"@,
                0,
            ),
    {
        let raw_random = self.get_i64("min_random_code_length", defaults.min_random);
        let raw_custom = self.get_i64("min_custom_code_length", defaults.min_custom);
        let system_min = self.get_i64("system_min_code_length", defaults.system_min);
        PublicSettings {
            founder_pricing_active: self.is_true("founder_pricing_active"),
            min_random_code_length: if raw_random >= system_min {
                raw_random
            } else {
                system_min
            },
            min_custom_code_length: if raw_custom >= system_min {
                raw_custom
            } else {
                system_min
            },
            system_min_code_length: system_min,
            active_discount_amount_pro_monthly: self.get_i64("active_discount_amount_pro_monthly", 0),
            active_discount_amount_pro_annual: self.get_i64("active_discount_amount_pro_annual", 0),
            active_discount_amount_business_monthly: self.get_i64(
                "active_discount_amount_business_monthly",
                0,
            ),
            active_discount_amount_business_annual: self.get_i64(
                "active_discount_amount_business_annual",
                0,
            ),
        }
    }
}

/// Whatever the stored values, the short code minimums the frontend sees are
/// never below the system minimum.
pub proof fn lemma_public_minimums(p: PublicSettings, s: Seq<(Seq<char>, Seq<char>)>, d: CodeLengthDefaults)
    requires
        p.system_min_code_length == setting_i64(s, "system_min_code_length"@, d.system_min),
        p.min_random_code_length == max_i64(
            setting_i64(s, "min_random_code_length"@, d.min_random),
            p.system_min_code_length,
        ),
        p.min_custom_code_length == max_i64(
            setting_i64(s, "min_custom_code_length"@, d.min_custom),
            p.system_min_code_length,
        ),
    ensures
        p.min_random_code_length >= p.system_min_code_length,
        p.min_custom_code_length >= p.system_min_code_length,
{
}

/// A setting update needs a string `key` and a string `value` (400 otherwise).
pub fn setting_update(key: Option<&str>, value: Option<&str>) -> (r: Result<(String, String), &'static str>)
    ensures
        key is None ==> r == Err::<(String, String), &'static str>("Missing 'key' field"),
        key is Some && value is None ==> r == Err::<(String, String), &'static str>(
            "Missing 'value' field",
        ),
        key matches Some(k) ==> (value matches Some(v) ==> (r matches Ok((a, b)) && a@ == k@ && b@
            == v@)),
{
    let k = match key {
        None => return Err("Missing 'key' field"),
        Some(k) => k,
    };
    let v = match value {
        None => return Err("Missing 'value' field"),
        Some(v) => v,
    };
    Ok((k.to_string(), v.to_string()))
}

} // verus!
