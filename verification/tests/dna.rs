use zombie_army::constants::DNA_MARKER;
use zombie_army::dna::dna_of_digest;
use zombie_army::dna::dna_preimage;
use zombie_army::dna::generate_dna;
use zombie_army::dna::normalize_dna;

#[test]
fn marker_is_bit_sixty() {
    assert_eq!(DNA_MARKER, 0x1000_0000_0000_0000);
    assert_eq!(DNA_MARKER, 1u64 << 60);
}

#[test]
fn normalize_dna_sets_the_marker() {
    assert_eq!(normalize_dna(0), 0x1000_0000_0000_0000);
    assert_eq!(normalize_dna(1), 0x1000_0000_0000_0001);
    assert_eq!(normalize_dna(0x9f00_0000_0000_0000), 0x9f00_0000_0000_0000);
    assert_eq!(normalize_dna(0x2000_0000_0000_0000), 0x3000_0000_0000_0000);
    assert_eq!(normalize_dna(0x0123_4567_89ab_cdef), 0x1123_4567_89ab_cdef);
    assert_eq!(normalize_dna(u64::MAX), u64::MAX);
}

#[test]
fn normalize_dna_marker_bit_always_set() {
    for raw in [0u64, 1, 59, 0x0fff_ffff_ffff_ffff, 0x2000_0000_0000_0000, 0xefff_ffff_ffff_ffff, u64::MAX] {
        let dna = normalize_dna(raw);
        assert_ne!(dna & 0x1000_0000_0000_0000, 0);
        assert_ne!(dna, 0);
        assert!(dna >= DNA_MARKER);
    }
}

#[test]
fn normalize_dna_is_idempotent() {
    for raw in [0u64, 1, 0x1a2b, 0x0fff_ffff_ffff_ffff, 0x2000_0000_0000_0000, 0x8000_0000_0000_0001, u64::MAX] {
        assert_eq!(normalize_dna(normalize_dna(raw)), normalize_dna(raw));
    }
}

#[test]
fn dna_preimage_is_identity_then_timestamp() {
    let mut owner = [0u8; 32];
    for i in 0..32 {
        owner[i] = i as u8;
    }
    let data = dna_preimage(&owner, 0x0102_0304_0506_0708);
    assert_eq!(data.len(), 40);
    assert_eq!(&data[..32], &owner[..]);
    assert_eq!(&data[32..], &[8u8, 7, 6, 5, 4, 3, 2, 1][..]);
}

#[test]
fn dna_preimage_of_a_negative_time_wraps() {
    let data = dna_preimage(&[9u8; 32], -1);
    assert_eq!(&data[..32], &[9u8; 32][..]);
    assert_eq!(&data[32..], &[255u8; 8][..]);
    let data = dna_preimage(&[9u8; 32], -2);
    assert_eq!(&data[32..], &[254u8, 255, 255, 255, 255, 255, 255, 255][..]);
    let data = dna_preimage(&[9u8; 32], i64::MIN);
    assert_eq!(&data[32..], &[0u8, 0, 0, 0, 0, 0, 0, 128][..]);
}

#[test]
fn dna_of_digest_reads_the_first_eight_bytes() {
    let mut digest = [0xeeu8; 32];
    digest[..8].copy_from_slice(&[0x08, 0x07, 0x06, 0x05, 0x04, 0x03, 0x02, 0x91]);
    assert_eq!(dna_of_digest(&digest), 0x9102_0304_0506_0708);
}

#[test]
fn dna_of_digest_lifts_small_values() {
    let mut digest = [0u8; 32];
    assert_eq!(dna_of_digest(&digest), 0x1000_0000_0000_0000);
    digest[0] = 5;
    digest[7] = 0x0f;
    assert_eq!(dna_of_digest(&digest), 0x1f00_0000_0000_0005);
    digest[9] = 77;
    assert_eq!(dna_of_digest(&digest), 0x1f00_0000_0000_0005);
}

#[test]
fn dna_of_digest_keeps_large_values() {
    let mut digest = [0u8; 32];
    digest[7] = 0x10;
    assert_eq!(dna_of_digest(&digest), 0x1000_0000_0000_0000);
    digest[7] = 0x20;
    assert_eq!(dna_of_digest(&digest), 0x2000_0000_0000_0000);
    digest[7] = 0xff;
    digest[0] = 1;
    assert_eq!(dna_of_digest(&digest), 0xff00_0000_0000_0001);
}

#[test]
fn generate_dna_known_answers() {
    assert_eq!(generate_dna(&[0u8; 32], 0), 10125002298327184428);
    assert_eq!(generate_dna(&[7u8; 32], 1_700_000_000), 8812907055648542504);
    let mut owner = [0u8; 32];
    for i in 0..32 {
        owner[i] = i as u8;
    }
    assert_eq!(generate_dna(&owner, 1_700_000_000), 7753143417565149352);
    assert_eq!(generate_dna(&[255u8; 32], -1), 14218936971049291118);
}

#[test]
fn generate_dna_lifts_a_small_digest() {
    // The digest for this identity and time starts with a number below the
    // marker: 911992635325670404.
    assert_eq!(generate_dna(&[1u8; 32], 60), 2064914139932517380);
    assert_eq!(generate_dna(&[1u8; 32], 60), 911992635325670404 + DNA_MARKER);
    assert_eq!(generate_dna(&[7u8; 32], 13), 1701878054125812140);
}

#[test]
fn generate_dna_is_never_zero() {
    for seed in 0u8..40 {
        for now in [-5i64, 0, 1, 59, 60, 1_700_000_000, i64::MAX, i64::MIN] {
            let dna = generate_dna(&[seed; 32], now);
            assert_ne!(dna, 0);
            assert!(dna >= DNA_MARKER);
        }
    }
}

#[test]
fn generate_dna_depends_on_identity_and_time() {
    let a = generate_dna(&[3u8; 32], 100);
    assert_eq!(a, generate_dna(&[3u8; 32], 100));
    assert_ne!(a, generate_dna(&[4u8; 32], 100));
    assert_ne!(a, generate_dna(&[3u8; 32], 101));
}
