use yubihsm_proto::domain::{Domain, DomainParam};
use yubihsm_proto::error::Error;

fn domains(numbers: &[u8]) -> Vec<Domain> {
    numbers.iter().map(|n| Domain::new(*n).unwrap()).collect()
}

fn numbers(doms: &[Domain]) -> Vec<u8> {
    doms.iter().map(|d| d.get()).collect()
}

#[test]
fn domain_new_accepts_one_to_sixteen() {
    for n in 1u8..=16 {
        let d = Domain::new(n).unwrap();
        assert_eq!(d.get(), n);
    }
}

#[test]
fn domain_new_rejects_zero_and_seventeen() {
    assert_eq!(Domain::new(0), Err(Error::InvalidDomain));
    assert_eq!(Domain::new(17), Err(Error::InvalidDomain));
    assert_eq!(Domain::new(255), Err(Error::InvalidDomain));
}

#[test]
fn single_domain_is_one_bit() {
    assert_eq!(DomainParam::from_domain(Domain::new(1).unwrap()), DomainParam(0x0001));
    assert_eq!(DomainParam::from_domain(Domain::new(2).unwrap()), DomainParam(0x0002));
    assert_eq!(DomainParam::from_domain(Domain::new(9).unwrap()), DomainParam(0x0100));
    assert_eq!(DomainParam::from_domain(Domain::new(16).unwrap()), DomainParam(0x8000));
    assert_eq!(DomainParam::from(Domain::new(5).unwrap()), DomainParam(0x0010));
}

#[test]
fn empty_set_encodes_to_zero() {
    assert_eq!(DomainParam::from_domains(&[]), DomainParam(0));
    assert_eq!(DomainParam(0).to_domains(), Vec::<Domain>::new());
}

#[test]
fn set_encodes_to_or_of_bits() {
    assert_eq!(DomainParam::from_domains(&domains(&[1, 5, 16])), DomainParam(0x8011));
    assert_eq!(DomainParam::from_domains(&domains(&[16, 5, 1])), DomainParam(0x8011));
    assert_eq!(DomainParam::from_domains(&domains(&[3, 3, 3])), DomainParam(0x0004));
    let all: Vec<u8> = (1..=16).collect();
    assert_eq!(DomainParam::from_domains(&domains(&all)), DomainParam(0xffff));
    assert_eq!(DomainParam::from(domains(&[2, 4]).as_slice()), DomainParam(0x000a));
}

#[test]
fn mask_decodes_in_rising_order() {
    assert_eq!(numbers(&DomainParam(0x8011).to_domains()), vec![1, 5, 16]);
    assert_eq!(numbers(&DomainParam(0x0001).to_domains()), vec![1]);
    assert_eq!(numbers(&DomainParam(0x8000).to_domains()), vec![16]);
    let all: Vec<u8> = (1..=16).collect();
    assert_eq!(numbers(&DomainParam(0xffff).to_domains()), all);
}

#[test]
fn every_subset_round_trips() {
    for mask in 0u32..=0xffff {
        let mask = mask as u16;
        let mut subset: Vec<u8> = Vec::new();
        for bit in 0u8..16 {
            if mask & (1 << bit) != 0 {
                subset.push(bit + 1);
            }
        }
        let encoded = DomainParam::from_domains(&domains(&subset));
        assert_eq!(encoded, DomainParam(mask));
        assert_eq!(numbers(&encoded.to_domains()), subset);
    }
}

#[test]
fn order_and_repeats_do_not_matter() {
    let a = DomainParam::from_domains(&domains(&[7, 2, 7, 11, 2]));
    assert_eq!(numbers(&a.to_domains()), vec![2, 7, 11]);
}
