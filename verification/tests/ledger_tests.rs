use prime_chain::block::{genesis_block, Block};
use prime_chain::hex::hex_string;
use prime_chain::ledger::ChainLedger;
use prime_chain::mining::MiningError;

fn extension(index: u64, prev_hash: &str, prime: u64) -> Block {
    // prime == 1*prime + 0*... is not in lowest-terms form; the ledger only
    // checks the link, so simple factors are enough here.
    Block {
        index,
        prev_hash: prev_hash.to_string(),
        prime,
        a: 1,
        b: 1,
        c: prime - 1,
        d: 1,
        hash: hex_string(prime ^ 2),
    }
}

#[test]
fn fresh_ledger_holds_only_genesis() {
    let ledger = ChainLedger::new();
    assert_eq!(ledger.height(), 1);
    let g = genesis_block();
    assert_eq!(ledger.tip().index, g.index);
    assert_eq!(ledger.tip().hash, g.hash);
    assert_eq!(ledger.block_at(0).prime, 2);
}

#[test]
fn append_accepts_exactly_the_next_link() {
    let mut ledger = ChainLedger::new();
    ledger.append(extension(1, "genesis", 7)).expect("extends the tip");
    assert_eq!(ledger.height(), 2);

    // Same index again: duplicate, rejected.
    let dup = extension(1, "genesis", 11);
    assert_eq!(ledger.append(dup).unwrap_err(), MiningError::InvalidBlock);

    // Skipped index: rejected.
    let skip = extension(3, &hex_string(7 ^ 2), 11);
    assert_eq!(ledger.append(skip).unwrap_err(), MiningError::InvalidBlock);

    // Wrong back-link: rejected.
    let unlinked = extension(2, "genesis", 11);
    assert_eq!(ledger.append(unlinked).unwrap_err(), MiningError::InvalidBlock);

    // The right continuation goes through.
    let good = extension(2, &hex_string(7 ^ 2), 11);
    ledger.append(good).expect("extends the tip");
    assert_eq!(ledger.height(), 3);
}

#[test]
fn snapshot_is_an_independent_copy() {
    let mut ledger = ChainLedger::new();
    ledger.append(extension(1, "genesis", 7)).expect("extends the tip");
    let snap = ledger.snapshot();
    assert_eq!(snap.len(), 2);
    assert_eq!(snap[0].hash, "genesis");
    assert_eq!(snap[1].prime, 7);
    // Growing the ledger afterwards leaves the snapshot alone.
    ledger.append(extension(2, &hex_string(7 ^ 2), 11)).expect("extends the tip");
    assert_eq!(snap.len(), 2);
    assert_eq!(ledger.height(), 3);
}
