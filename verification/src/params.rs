//! Typed, name-addressed access to a decoded event's parameters.
//!
//! An event carries an ordered mapping from parameter name to a typed value.
//! Reading a missing name, or reading a value as the wrong variant, is a
//! handler/ABI mismatch — a programming-contract violation — so every typed
//! accessor demands in its precondition that the name is present with the
//! expected type.

use vstd::prelude::*;

verus! {

/// One decoded parameter value: an address in canonical hex-string form, an
/// unsigned integer, or a signed integer (base-unit amounts included).
///
/// Integer widths are capped at 128 bits here; the declared ABI widths that
/// the handlers read (uint256 token identifiers bounded to 32 bits, uint24
/// fees, int24 tick spacings, int256 wei amounts) all fit.
pub enum ParameterValue {
    Address(String),
    Uint(u128),
    Int(i128),
}

/// The ordered name-to-value mapping of one decoded event. Lookup takes the
/// first entry with the given name.
pub struct ParameterView {
    entries: Vec<(String, ParameterValue)>,
}

impl View for ParameterView {
    type V = Seq<(String, ParameterValue)>;

    closed spec fn view(&self) -> Seq<(String, ParameterValue)> {
        self.entries@
    }
}

/// The first value stored under `name`, if any.
pub open spec fn lookup_param(
    s: Seq<(String, ParameterValue)>,
    name: Seq<char>,
) -> Option<ParameterValue>
    decreases s.len(),
{
    if s.len() == 0 {
        None
    } else if s[0].0@ == name {
        Some(s[0].1)
    } else {
        lookup_param(s.drop_first(), name)
    }
}

pub open spec fn has_address(s: Seq<(String, ParameterValue)>, name: Seq<char>) -> bool {
    lookup_param(s, name) matches Some(ParameterValue::Address(_))
}

pub open spec fn address_param(s: Seq<(String, ParameterValue)>, name: Seq<char>) -> Seq<char> {
    match lookup_param(s, name) {
        Some(ParameterValue::Address(a)) => a@,
        _ => Seq::empty(),
    }
}

pub open spec fn has_uint(s: Seq<(String, ParameterValue)>, name: Seq<char>) -> bool {
    lookup_param(s, name) matches Some(ParameterValue::Uint(_))
}

pub open spec fn uint_param(s: Seq<(String, ParameterValue)>, name: Seq<char>) -> u128 {
    match lookup_param(s, name) {
        Some(ParameterValue::Uint(u)) => u,
        _ => 0,
    }
}

pub open spec fn has_int(s: Seq<(String, ParameterValue)>, name: Seq<char>) -> bool {
    lookup_param(s, name) matches Some(ParameterValue::Int(_))
}

pub open spec fn int_param(s: Seq<(String, ParameterValue)>, name: Seq<char>) -> i128 {
    match lookup_param(s, name) {
        Some(ParameterValue::Int(i)) => i,
        _ => 0,
    }
}

proof fn lemma_lookup_at(s: Seq<(String, ParameterValue)>, name: Seq<char>, i: int)
    requires
        0 <= i < s.len(),
        s[i].0@ == name,
        forall|j: int| 0 <= j < i ==> s[j].0@ != name,
    ensures
        lookup_param(s, name) == Some(s[i].1),
    decreases i,
{
    if i > 0 {
        assert(s.drop_first()[i - 1] == s[i]);
        assert forall|j: int| 0 <= j < i - 1 implies s.drop_first()[j].0@ != name by {
            assert(s.drop_first()[j] == s[j + 1]);
        }
        lemma_lookup_at(s.drop_first(), name, i - 1);
    }
}

proof fn lemma_lookup_absent(s: Seq<(String, ParameterValue)>, name: Seq<char>)
    requires
        forall|j: int| 0 <= j < s.len() ==> s[j].0@ != name,
    ensures
        lookup_param(s, name) is None,
    decreases s.len(),
{
    if s.len() > 0 {
        assert forall|j: int| 0 <= j < s.drop_first().len() implies s.drop_first()[j].0@
            != name by {
            assert(s.drop_first()[j] == s[j + 1]);
        }
        lemma_lookup_absent(s.drop_first(), name);
    }
}

impl ParameterView {
    /// An empty parameter mapping.
    pub fn new() -> (r: Self)
        ensures
            r@ == Seq::<(String, ParameterValue)>::empty(),
    {
        ParameterView { entries: Vec::new() }
    }

    /// Appends one named value, keeping the declared parameter order.
    pub fn add(&mut self, name: String, value: ParameterValue)
        ensures
            final(self)@ == old(self)@.push((name, value)),
    {
        self.entries.push((name, value));
    }

    /// Finds the first entry named `name`.
    fn find(&self, name: &str) -> (r: Option<&ParameterValue>)
        ensures
            match r {
                Some(v) => lookup_param(self@, name@) == Some(*v),
                None => lookup_param(self@, name@) is None,
            },
    {
        let key: String = name.to_owned();
        let mut i: usize = 0;
        while i < self.entries.len()
            invariant
                0 <= i <= self.entries@.len(),
                key@ == name@,
                forall|j: int| 0 <= j < i ==> self.entries@[j].0@ != name@,
            decreases self.entries@.len() - i,
        {
            let e = &self.entries[i];
            if e.0 == key {
                proof {
                    lemma_lookup_at(self@, name@, i as int);
                }
                return Some(&e.1);
            }
            i += 1;
        }
        proof {
            lemma_lookup_absent(self@, name@);
        }
        None
    }

    /// The address stored under `name`, in its canonical string form.
    pub fn get_address(&self, name: &str) -> (r: String)
        requires
            has_address(self@, name@),
        ensures
            r@ == address_param(self@, name@),
    {
        match self.find(name) {
            Some(v) => match v {
                ParameterValue::Address(a) => a.clone(),
                _ => vstd::pervasive::unreached(),
            },
            None => vstd::pervasive::unreached(),
        }
    }

    /// The unsigned integer stored under `name`, at full width.
    pub fn get_uint(&self, name: &str) -> (r: u128)
        requires
            has_uint(self@, name@),
        ensures
            r == uint_param(self@, name@),
    {
        match self.find(name) {
            Some(v) => match v {
                ParameterValue::Uint(u) => *u,
                _ => vstd::pervasive::unreached(),
            },
            None => vstd::pervasive::unreached(),
        }
    }

    /// The unsigned integer stored under `name`, narrowed to 32 bits.
    pub fn get_u32(&self, name: &str) -> (r: u32)
        requires
            has_uint(self@, name@),
            uint_param(self@, name@) <= u32::MAX,
        ensures
            r == uint_param(self@, name@),
    {
        self.get_uint(name) as u32
    }

    /// The signed integer stored under `name`, at full width.
    pub fn get_int(&self, name: &str) -> (r: i128)
        requires
            has_int(self@, name@),
        ensures
            r == int_param(self@, name@),
    {
        match self.find(name) {
            Some(v) => match v {
                ParameterValue::Int(i) => *i,
                _ => vstd::pervasive::unreached(),
            },
            None => vstd::pervasive::unreached(),
        }
    }

    /// The signed integer stored under `name`, narrowed to 32 bits.
    pub fn get_i32(&self, name: &str) -> (r: i32)
        requires
            has_int(self@, name@),
            i32::MIN <= int_param(self@, name@) <= i32::MAX,
        ensures
            r == int_param(self@, name@),
    {
        self.get_int(name) as i32
    }

    /// The signed base-unit (wei-scaled) amount stored under `name`.
    ///
    /// The amount is kept as an exact wei-scaled integer rather than being
    /// converted to a lossy floating representation: one ether is
    /// `WEI_PER_ETHER` base units.
    pub fn get_ether_amount(&self, name: &str) -> (r: EtherAmount)
        requires
            has_int(self@, name@),
        ensures
            r.wei == int_param(self@, name@),
    {
        EtherAmount { wei: self.get_int(name) }
    }
}

/// Base units (wei) per ether.
pub const WEI_PER_ETHER: u128 = 1000000000000000000;

/// The absolute value of a signed wei-scaled amount.
pub open spec fn wei_magnitude(a: i128) -> u128 {
    (if a >= 0 {
        a as int
    } else {
        -(a as int)
    }) as u128
}

/// An exact ether-scaled fixed-point amount, held as signed base units (wei).
pub struct EtherAmount {
    pub wei: i128,
}

impl EtherAmount {
    /// The amount's magnitude in wei; trade volume is additive irrespective
    /// of trade direction.
    pub fn magnitude_wei(&self) -> (m: u128)
        ensures
            m == wei_magnitude(self.wei),
    {
        if self.wei >= 0 {
            self.wei as u128
        } else {
            let p: i128 = -(self.wei + 1);
            (p as u128) + 1
        }
    }
}

/// Splits a wei magnitude into whole ether and the remaining wei fraction.
pub fn ether_parts(m: u128) -> (r: (u128, u128))
    ensures
        r.0 == m / WEI_PER_ETHER as u128,
        r.1 == m % WEI_PER_ETHER as u128,
{
    (m / WEI_PER_ETHER, m % WEI_PER_ETHER)
}

/// One decoded event as handed over by the external indexing runtime: where
/// it was observed, which ABI signature it decodes under, and its parameters.
pub struct Event {
    pub chain_id: u64,
    pub contract_address: String,
    pub block_number: u64,
    pub block_timestamp: u64,
    pub log_index: u32,
    pub abi_signature: String,
    pub params: ParameterView,
}

} // verus!
