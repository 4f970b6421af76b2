use precompile::address::{u64_to_address, Address};
use precompile::gas::calc_linear_cost;
use precompile::hash::{charge, left_pad_to_word, ripemd160_run, sha256_run};
use precompile::output::{PrecompileError, PrecompileOutput};
use precompile::registry::{
    ripemd160, ripemd160_pre_activation, sha256, sha256_pre_activation, Precompile, Precompiles,
    StandardPrecompile,
};

fn hex(s: &str) -> Vec<u8> {
    (0..s.len() / 2)
        .map(|i| u8::from_str_radix(&s[2 * i..2 * i + 2], 16).unwrap())
        .collect()
}

fn pseudo_random_bytes(len: usize, seed: u64) -> Vec<u8> {
    let mut state = seed;
    let mut out = Vec::with_capacity(len);
    for _ in 0..len {
        state = state.wrapping_mul(6364136223846793005).wrapping_add(1442695040888963407);
        out.push((state >> 56) as u8);
    }
    out
}

const SHA256_EMPTY: &str = "e3b0c44298fc1c149afbf4c8996fb92427ae41e4649b934ca495991b7852b855";
const SHA256_ABC: &str = "ba7816bf8f01cfea414140de5dae2223b00361a396177a9cb410ff61f20015ad";
const RIPEMD160_EMPTY: &str = "9c1185a5c5e9fc54612808977ee8f548b2258d31";
const RIPEMD160_ABC: &str = "8eb208f7e05d987a9b044a8e98c6b087f15a0bfc";

#[test]
fn linear_cost_rounds_up_to_words() {
    assert_eq!(calc_linear_cost(0, 60, 12), 60);
    assert_eq!(calc_linear_cost(1, 60, 12), 72);
    assert_eq!(calc_linear_cost(32, 60, 12), 72);
    assert_eq!(calc_linear_cost(33, 60, 12), 84);
    assert_eq!(calc_linear_cost(64, 600, 120), 840);
    assert_eq!(calc_linear_cost(65, 600, 120), 960);
}

#[test]
fn linear_cost_does_not_overflow_on_largest_length() {
    let words = (usize::MAX as u128 + 31) / 32;
    assert_eq!(
        calc_linear_cost(usize::MAX, u64::MAX, u64::MAX),
        u64::MAX as u128 + u64::MAX as u128 * words
    );
    assert!(calc_linear_cost(usize::MAX, 600, 120) > u64::MAX as u128 || usize::BITS < 64);
}

#[test]
fn charge_gates_on_the_limit() {
    assert_eq!(charge(60, 60), Ok(60));
    assert_eq!(charge(60, 59), Err(PrecompileError::OutOfGas));
    assert_eq!(charge(u64::MAX as u128 + 1, u64::MAX), Err(PrecompileError::OutOfGas));
    assert_eq!(charge(u64::MAX as u128, u64::MAX), Ok(u64::MAX));
}

#[test]
fn sha256_empty_input_with_enough_gas() {
    for gas_limit in [60u64, 61, 1000, u64::MAX] {
        let out = sha256_run(&[], gas_limit).unwrap();
        assert_eq!(out.gas_used, 60);
        assert_eq!(out.bytes.len(), 32);
        assert_eq!(out.bytes, hex(SHA256_EMPTY));
    }
}

#[test]
fn sha256_empty_input_out_of_gas() {
    assert_eq!(sha256_run(&[], 59), Err(PrecompileError::OutOfGas));
    assert_eq!(sha256_run(&[], 0), Err(PrecompileError::OutOfGas));
}

#[test]
fn sha256_abc() {
    let out = sha256_run(b"abc", 72).unwrap();
    assert_eq!(out, PrecompileOutput::new(72, hex(SHA256_ABC)));
    assert_eq!(sha256_run(b"abc", 71), Err(PrecompileError::OutOfGas));
}

#[test]
fn sha256_charges_per_started_word() {
    let input = vec![7u8; 33];
    assert_eq!(sha256_run(&input, 84).unwrap().gas_used, 84);
    assert_eq!(sha256_run(&input, 83), Err(PrecompileError::OutOfGas));
}

#[test]
fn ripemd160_empty_input_with_enough_gas() {
    for gas_limit in [600u64, 601, u64::MAX] {
        let out = ripemd160_run(&[], gas_limit).unwrap();
        assert_eq!(out.gas_used, 600);
        assert_eq!(out.bytes.len(), 32);
        assert!(out.bytes[..12].iter().all(|b| *b == 0));
        assert_eq!(out.bytes[12..].to_vec(), hex(RIPEMD160_EMPTY));
    }
}

#[test]
fn ripemd160_empty_input_out_of_gas() {
    assert_eq!(ripemd160_run(&[], 599), Err(PrecompileError::OutOfGas));
}

#[test]
fn ripemd160_abc() {
    let mut expected = vec![0u8; 12];
    expected.extend(hex(RIPEMD160_ABC));
    assert_eq!(ripemd160_run(b"abc", 720), Ok(PrecompileOutput::new(720, expected)));
    assert_eq!(ripemd160_run(b"abc", 719), Err(PrecompileError::OutOfGas));
}

#[test]
fn left_pad_right_aligns() {
    let padded = left_pad_to_word(&[1, 2, 3]);
    let mut expected = vec![0u8; 29];
    expected.extend([1u8, 2, 3]);
    assert_eq!(padded, expected);
    assert_eq!(left_pad_to_word(&[9u8; 32]), vec![9u8; 32]);
    assert_eq!(left_pad_to_word(&[]), vec![0u8; 32]);
}

#[test]
fn address_from_small_integer() {
    let a = u64_to_address(2);
    let mut expected = [0u8; 20];
    expected[19] = 2;
    assert_eq!(a.bytes, expected);
    let b = u64_to_address(0x0102_0304_0506_0708);
    assert_eq!(b.bytes[..12], [0u8; 12]);
    assert_eq!(b.bytes[12..], [1u8, 2, 3, 4, 5, 6, 7, 8]);
    assert!(a.same_as(&u64_to_address(2)));
    assert!(!a.same_as(&u64_to_address(3)));
}

#[test]
fn entries_sit_at_their_addresses() {
    assert_eq!(sha256().address, u64_to_address(2));
    assert_eq!(ripemd160().address, u64_to_address(3));
    assert_eq!(sha256_pre_activation().address, u64_to_address(2));
    assert_eq!(ripemd160_pre_activation().address, u64_to_address(3));
}

#[test]
fn active_registry_dispatches_to_hashes() {
    let reg = Precompiles::hashes(true);
    assert_eq!(reg.len(), 2);
    let sha = u64_to_address(2);
    let ripemd = u64_to_address(3);
    assert_eq!(
        reg.lookup(&sha),
        Some(Precompile::Standard(StandardPrecompile::Sha256))
    );
    assert_eq!(reg.dispatch(&sha, b"abc", 100), Some(sha256_run(b"abc", 100)));
    assert_eq!(reg.dispatch(&ripemd, b"abc", 1000), Some(ripemd160_run(b"abc", 1000)));
    assert_eq!(
        reg.dispatch(&ripemd, &[], 599),
        Some(Err(PrecompileError::OutOfGas))
    );
}

#[test]
fn registry_leaves_unknown_addresses_to_the_caller() {
    let reg = Precompiles::hashes(true);
    let other = u64_to_address(4);
    assert_eq!(reg.lookup(&other), None);
    assert_eq!(reg.dispatch(&other, b"abc", u64::MAX), None);
    assert_eq!(reg.dispatch(&Address { bytes: [0xff; 20] }, &[], 0), None);
}

#[test]
fn pre_activation_registry_refuses_every_call() {
    let reg = Precompiles::hashes(false);
    for addr in [2u64, 3] {
        let a = u64_to_address(addr);
        for len in [0usize, 1, 32, 1000] {
            let input = pseudo_random_bytes(len, addr);
            for gas_limit in [0u64, 59, 600, u64::MAX] {
                assert_eq!(
                    reg.dispatch(&a, &input, gas_limit),
                    Some(Err(PrecompileError::NotImplemented))
                );
            }
        }
    }
}

#[test]
fn repeated_calls_give_identical_results() {
    let reg = Precompiles::hashes(true);
    for (k, len) in [0usize, 1, 31, 32, 33, 10000].into_iter().enumerate() {
        let input = pseudo_random_bytes(len, k as u64 + 11);
        for addr in [2u64, 3] {
            let a = u64_to_address(addr);
            for gas_limit in [0u64, 100, 5000, u64::MAX] {
                let first = reg.dispatch(&a, &input, gas_limit);
                let second = reg.dispatch(&a, &input, gas_limit);
                assert_eq!(first, second);
            }
        }
        assert_eq!(sha256_run(&input, u64::MAX), sha256_run(&input, u64::MAX));
        assert_eq!(ripemd160_run(&input, u64::MAX), ripemd160_run(&input, u64::MAX));
    }
}

#[test]
fn registry_from_entries_rejects_duplicate_addresses() {
    assert!(Precompiles::from_entries(vec![sha256(), sha256_pre_activation()]).is_none());
    assert!(Precompiles::from_entries(vec![sha256(), ripemd160(), ripemd160()]).is_none());
    let reg = Precompiles::from_entries(vec![ripemd160(), sha256_pre_activation()]).unwrap();
    assert_eq!(reg.len(), 2);
    assert_eq!(
        reg.dispatch(&u64_to_address(2), b"abc", u64::MAX),
        Some(Err(PrecompileError::NotImplemented))
    );
    assert_eq!(
        reg.dispatch(&u64_to_address(3), b"abc", 720),
        Some(ripemd160_run(b"abc", 720))
    );
    let empty = Precompiles::from_entries(Vec::new()).unwrap();
    assert_eq!(empty.len(), 0);
    assert_eq!(empty.dispatch(&u64_to_address(2), &[], u64::MAX), None);
}
