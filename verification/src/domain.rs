use crate::error::Error;
use vstd::prelude::*;
use vstd::std_specs::convert::FromSpecImpl;

verus! {

/// One of the sixteen logical partitions of the device, numbered from 1.
#[derive(Clone, Copy, Debug, PartialEq, Eq, Structural)]
pub struct Domain(pub(crate) u8);

/// A set of domains as the device takes it: bit `i` stands for domain `i + 1`.
#[derive(Clone, Copy, Debug, PartialEq, Eq, Structural)]
pub struct DomainParam(pub u16);

impl Domain {
    /// The number of the domain.
    pub closed spec fn number(self) -> int {
        self.0 as int
    }

    /// A domain is numbered from 1 to 16.
    pub open spec fn valid(self) -> bool {
        1 <= self.number() <= 16
    }

    #[verifier::type_invariant]
    spec fn in_range(self) -> bool {
        self.valid()
    }

    /// The one bit that stands for this domain in a mask.
    pub open spec fn bit(self) -> u16 {
        1u16 << ((self.number() - 1) as u16)
    }

    /// Builds a domain from its number, which must lie in `1..=16`.
    pub fn new(domain: u8) -> (r: Result<Domain, Error>)
        ensures
            1 <= domain <= 16 ==> r is Ok && r->Ok_0.number() == domain,
            !(1 <= domain <= 16) ==> r == Err::<Domain, Error>(Error::InvalidDomain),
    {
        if domain < 1 || domain > 16 {
            return Err(Error::InvalidDomain);
        }
        Ok(Domain(domain))
    }

    /// The number of the domain, always in `1..=16`.
    pub fn get(self) -> (n: u8)
        ensures
            n == self.number(),
            1 <= n <= 16,
    {
        proof {
            use_type_invariant(&self);
        }
        self.0
    }
}

/// Whether `mask` holds the bit of the domain numbered `n`.
pub open spec fn mask_has(mask: u16, n: int) -> bool {
    mask & (1u16 << ((n - 1) as u16)) != 0
}

/// The mask of a list of domains: the bitwise OR of the bit of each.
pub open spec fn mask_of(doms: Seq<Domain>) -> u16
    decreases doms.len(),
{
    if doms.len() == 0 {
        0
    } else {
        mask_of(doms.drop_last()) | doms.last().bit()
    }
}

/// The domains among the first `n` whose bit `mask` holds, in rising order.
pub open spec fn domains_below(mask: u16, n: nat) -> Seq<int>
    decreases n,
{
    if n == 0 {
        Seq::empty()
    } else if mask_has(mask, n as int) {
        domains_below(mask, (n - 1) as nat).push(n as int)
    } else {
        domains_below(mask, (n - 1) as nat)
    }
}

/// The numbers of the domains that `mask` holds, in rising order.
pub open spec fn domains_of(mask: u16) -> Seq<int> {
    domains_below(mask, 16)
}

/// The numbers of a list of domains.
pub open spec fn numbers(doms: Seq<Domain>) -> Seq<int> {
    doms.map_values(|d: Domain| d.number())
}

impl DomainParam {
    /// The mask that holds one domain.
    pub fn from_domain(dom: Domain) -> (p: DomainParam)
        ensures
            p.0 == dom.bit(),
            p.0 == mask_of(seq![dom]),
    {
        let n: u8 = dom.get();
        let shift: u16 = (n - 1) as u16;
        proof {
            lemma_single(dom);
        }
        DomainParam(1u16 << shift)
    }

    /// The mask of a set of domains: the bitwise OR of the bit of each member.
    /// The empty set gives 0; a domain that occurs twice counts once.
    pub fn from_domains(doms: &[Domain]) -> (p: DomainParam)
        ensures
            p.0 == mask_of(doms@),
            forall|n: int| 1 <= n <= 16 ==> (mask_has(p.0, n) <==> numbers(doms@).contains(n)),
    {
        let mut out: u16 = 0;
        let mut i: usize = 0;
        while i < doms.len()
            invariant
                i <= doms.len(),
                out == mask_of(doms@.take(i as int)),
                forall|k: int| 0 <= k < i ==> (#[trigger] doms@[k]).valid(),
            decreases doms.len() - i,
        {
            let dom: Domain = doms[i];
            let n: u8 = dom.get();
            let shift: u16 = (n - 1) as u16;
            proof {
                assert(doms@.take(i + 1).drop_last() =~= doms@.take(i as int));
                assert(doms@.take(i + 1).last() == dom);
            }
            out = out | (1u16 << shift);
            i = i + 1;
        }
        proof {
            assert(doms@.take(i as int) =~= doms@);
            assert forall|n: int| 1 <= n <= 16 implies (mask_has(out, n) <==> numbers(
                doms@,
            ).contains(n)) by {
                lemma_mask_of(doms@, n);
            }
        }
        DomainParam(out)
    }

    /// The domains that the mask holds, in rising order: for each bit
    /// position `0..16` that is set, the domain numbered one more.
    pub fn to_domains(self) -> (out: Vec<Domain>)
        ensures
            numbers(out@) == domains_of(self.0),
            forall|n: int|
                numbers(out@).contains(n) <==> (1 <= n <= 16 && mask_has(self.0, n)),
    {
        let mut out: Vec<Domain> = Vec::new();
        let mut bit: u8 = 0;
        while bit < 16
            invariant
                bit <= 16,
                numbers(out@) == domains_below(self.0, bit as nat),
            decreases 16 - bit,
        {
            let shift: u16 = bit as u16;
            if self.0 & (1u16 << shift) != 0 {
                let ghost before = out@;
                out.push(Domain(bit + 1));
                proof {
                    assert(numbers(out@) =~= numbers(before).push((bit + 1) as int));
                }
            }
            bit = bit + 1;
        }
        proof {
            lemma_domains_below(self.0, 16);
        }
        out
    }
}

impl From<Domain> for DomainParam {
    fn from(dom: Domain) -> (r: DomainParam) {
        DomainParam::from_domain(dom)
    }
}

impl FromSpecImpl<Domain> for DomainParam {
    open spec fn obeys_from_spec() -> bool {
        true
    }

    open spec fn from_spec(dom: Domain) -> DomainParam {
        DomainParam(dom.bit())
    }
}

impl<'a> From<&'a [Domain]> for DomainParam {
    fn from(doms: &'a [Domain]) -> (r: DomainParam) {
        DomainParam::from_domains(doms)
    }
}

impl<'a> FromSpecImpl<&'a [Domain]> for DomainParam {
    open spec fn obeys_from_spec() -> bool {
        true
    }

    open spec fn from_spec(doms: &'a [Domain]) -> DomainParam {
        DomainParam(mask_of(doms@))
    }
}

proof fn lemma_bit_or(x: u16, i: u16, j: u16)
    by (bit_vector)
    requires
        i < 16,
        j < 16,
    ensures
        ((x | (1u16 << i)) & (1u16 << j) != 0) <==> ((x & (1u16 << j) != 0) || i == j),
{
}

proof fn lemma_bit_zero(j: u16)
    by (bit_vector)
    ensures
        0u16 & (1u16 << j) == 0,
{
}

proof fn lemma_single(dom: Domain)
    ensures
        mask_of(seq![dom]) == dom.bit(),
{
    let s = seq![dom];
    assert(s.drop_last().len() == 0);
    assert(mask_of(s.drop_last()) == 0);
    assert(s.last() == dom);
    let b = dom.bit();
    assert(0u16 | b == b) by (bit_vector);
}

/// A number is among the domains below `n` of a mask exactly when it is one of
/// `1..=n` and the mask holds its bit; the list rises strictly.
pub proof fn lemma_domains_below(mask: u16, n: nat)
    requires
        n <= 16,
    ensures
        domains_below(mask, n).len() <= n,
        forall|d: int|
            domains_below(mask, n).contains(d) <==> (1 <= d <= n && mask_has(mask, d)),
        forall|i: int, j: int|
            0 <= i < j < domains_below(mask, n).len() ==> domains_below(mask, n)[i]
                < domains_below(mask, n)[j],
        forall|i: int|
            0 <= i < domains_below(mask, n).len() ==> 1 <= #[trigger] domains_below(mask, n)[i]
                <= n,
    decreases n,
{
    if n > 0 {
        let prev = domains_below(mask, (n - 1) as nat);
        lemma_domains_below(mask, (n - 1) as nat);
        let cur = domains_below(mask, n);
        if mask_has(mask, n as int) {
            assert(cur == prev.push(n as int));
            assert forall|d: int| cur.contains(d) <==> (1 <= d <= n && mask_has(mask, d)) by {
                if cur.contains(d) {
                    let i = choose|i: int| 0 <= i < cur.len() && cur[i] == d;
                    if i < prev.len() {
                        assert(prev.contains(d));
                    }
                }
                if 1 <= d <= n && mask_has(mask, d) {
                    if d == n {
                        assert(cur[prev.len() as int] == d);
                    } else {
                        assert(prev.contains(d));
                        let i = choose|i: int| 0 <= i < prev.len() && prev[i] == d;
                        assert(cur[i] == d);
                    }
                }
            }
        } else {
            assert(cur == prev);
        }
    }
}

/// The mask of a list of valid domains holds the bit of a domain exactly when
/// the domain is in the list.
pub proof fn lemma_mask_of(doms: Seq<Domain>, n: int)
    requires
        forall|i: int| 0 <= i < doms.len() ==> (#[trigger] doms[i]).valid(),
        1 <= n <= 16,
    ensures
        mask_has(mask_of(doms), n) <==> numbers(doms).contains(n),
    decreases doms.len(),
{
    let nums = numbers(doms);
    if doms.len() == 0 {
        lemma_bit_zero((n - 1) as u16);
    } else {
        let init = doms.drop_last();
        let last = doms.last();
        lemma_mask_of(init, n);
        assert(last.valid());
        lemma_bit_or(mask_of(init), (last.number() - 1) as u16, (n - 1) as u16);
        assert(numbers(init) =~= nums.drop_last());
        assert(nums.last() == last.number());
        if nums.contains(n) {
            let i = choose|i: int| 0 <= i < nums.len() && nums[i] == n;
            if i < nums.len() - 1 {
                assert(nums.drop_last()[i] == n);
                assert(numbers(init).contains(n));
            }
        }
        if numbers(init).contains(n) {
            let i = choose|i: int| 0 <= i < numbers(init).len() && numbers(init)[i] == n;
            assert(nums[i] == n);
        }
        if last.number() == n {
            assert(nums[nums.len() - 1] == n);
        }
    }
}

/// Decoding the mask of a set of domains gives that set back: a number is
/// among the decoded domains exactly when it is in the list that was encoded.
pub proof fn lemma_domain_round_trip(doms: Seq<Domain>)
    requires
        forall|i: int| 0 <= i < doms.len() ==> (#[trigger] doms[i]).valid(),
    ensures
        domains_of(mask_of(doms)).to_set() == numbers(doms).to_set(),
{
    let mask = mask_of(doms);
    lemma_domains_below(mask, 16);
    assert forall|d: int| domains_of(mask).contains(d) <==> numbers(doms).contains(d) by {
        if 1 <= d <= 16 {
            lemma_mask_of(doms, d);
        } else if numbers(doms).contains(d) {
            let i = choose|i: int| 0 <= i < numbers(doms).len() && numbers(doms)[i] == d;
            assert(doms[i].valid());
        }
    }
    assert(domains_of(mask).to_set() =~= numbers(doms).to_set());
}

proof fn lemma_same_bits(a: u16, b: u16)
    by (bit_vector)
    requires
        (a & (1u16 << 0u16) != 0) == (b & (1u16 << 0u16) != 0),
        (a & (1u16 << 1u16) != 0) == (b & (1u16 << 1u16) != 0),
        (a & (1u16 << 2u16) != 0) == (b & (1u16 << 2u16) != 0),
        (a & (1u16 << 3u16) != 0) == (b & (1u16 << 3u16) != 0),
        (a & (1u16 << 4u16) != 0) == (b & (1u16 << 4u16) != 0),
        (a & (1u16 << 5u16) != 0) == (b & (1u16 << 5u16) != 0),
        (a & (1u16 << 6u16) != 0) == (b & (1u16 << 6u16) != 0),
        (a & (1u16 << 7u16) != 0) == (b & (1u16 << 7u16) != 0),
        (a & (1u16 << 8u16) != 0) == (b & (1u16 << 8u16) != 0),
        (a & (1u16 << 9u16) != 0) == (b & (1u16 << 9u16) != 0),
        (a & (1u16 << 10u16) != 0) == (b & (1u16 << 10u16) != 0),
        (a & (1u16 << 11u16) != 0) == (b & (1u16 << 11u16) != 0),
        (a & (1u16 << 12u16) != 0) == (b & (1u16 << 12u16) != 0),
        (a & (1u16 << 13u16) != 0) == (b & (1u16 << 13u16) != 0),
        (a & (1u16 << 14u16) != 0) == (b & (1u16 << 14u16) != 0),
        (a & (1u16 << 15u16) != 0) == (b & (1u16 << 15u16) != 0),
    ensures
        a == b,
{
}

/// Encoding the domains that a mask decodes to gives the mask back.
pub proof fn lemma_mask_round_trip(mask: u16, doms: Seq<Domain>)
    requires
        forall|i: int| 0 <= i < doms.len() ==> (#[trigger] doms[i]).valid(),
        numbers(doms) == domains_of(mask),
    ensures
        mask_of(doms) == mask,
{
    lemma_domains_below(mask, 16);
    assert forall|n: int| 1 <= n <= 16 implies (mask_has(mask_of(doms), n) <==> mask_has(
        mask,
        n,
    )) by {
        lemma_mask_of(doms, n);
    }
    let a = mask_of(doms);
    assert(mask_has(a, 1) == mask_has(mask, 1));
    assert(mask_has(a, 2) == mask_has(mask, 2));
    assert(mask_has(a, 3) == mask_has(mask, 3));
    assert(mask_has(a, 4) == mask_has(mask, 4));
    assert(mask_has(a, 5) == mask_has(mask, 5));
    assert(mask_has(a, 6) == mask_has(mask, 6));
    assert(mask_has(a, 7) == mask_has(mask, 7));
    assert(mask_has(a, 8) == mask_has(mask, 8));
    assert(mask_has(a, 9) == mask_has(mask, 9));
    assert(mask_has(a, 10) == mask_has(mask, 10));
    assert(mask_has(a, 11) == mask_has(mask, 11));
    assert(mask_has(a, 12) == mask_has(mask, 12));
    assert(mask_has(a, 13) == mask_has(mask, 13));
    assert(mask_has(a, 14) == mask_has(mask, 14));
    assert(mask_has(a, 15) == mask_has(mask, 15));
    assert(mask_has(a, 16) == mask_has(mask, 16));
    lemma_same_bits(a, mask);
}

} // verus!
