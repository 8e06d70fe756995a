use powchain::block::Block;
use powchain::chain::App;
use powchain::chain::BlockFault;
use powchain::chain::ForkError;

fn clone_blocks(chain: &Vec<Block>) -> Vec<Block> {
    chain.iter().map(|b| b.clone()).collect()
}

fn mined_app(extra_blocks: usize) -> App {
    let mut app = App::new();
    app.genesis();
    for i in 0..extra_blocks {
        app.handle_create_block(format!("payload {}", i)).expect("mining succeeds");
    }
    app
}

#[test]
fn fresh_chain_starts_with_genesis_id_zero() {
    let mut app = App::new();
    assert_eq!(app.blockchain.len(), 0);
    app.genesis();
    assert_eq!(app.blockchain.len(), 1);
    assert_eq!(app.blockchain[0].block_id, 0);
    assert_eq!(app.blockchain[0].hash, "Genesis Hash");
    assert_eq!(app.blockchain[0].prev_hash, "---");
    assert_eq!(app.blockchain[0].data, "Genesis Block");
    assert_eq!(app.blockchain[0].nonce, 2108);
    // The genesis block is exempt from the validity rules: its sentinel hash
    // would fail every check, yet the single-block chain is valid.
    assert!(app.is_chain_valid(&app.blockchain));
}

#[test]
fn mine_and_append_hello_block() {
    let mut app = App::new();
    app.genesis();
    let block = app.handle_create_block("hello".to_owned()).expect("mining succeeds");
    assert_eq!(block.data, "hello");
    assert_eq!(block.block_id, 1);
    assert_eq!(block.prev_hash, "Genesis Hash");
    assert_eq!(app.blockchain.len(), 2);
    assert!(app.is_chain_valid(&app.blockchain));
}

#[test]
fn serialized_block_round_trips_to_an_identical_struct() {
    let mut app = App::new();
    app.genesis();
    let block = app.handle_create_block("hello".to_owned()).expect("mining succeeds");

    // Serialize the block the way it travels on the gossip wire.
    let mut m = serde_json::Map::new();
    m.insert("block_id".to_owned(), serde_json::Value::from(block.block_id));
    m.insert("hash".to_owned(), serde_json::Value::from(block.hash.as_str()));
    m.insert("prev_hash".to_owned(), serde_json::Value::from(block.prev_hash.as_str()));
    m.insert("timestamp".to_owned(), serde_json::Value::from(block.timestamp));
    m.insert("data".to_owned(), serde_json::Value::from(block.data.as_str()));
    m.insert("nonce".to_owned(), serde_json::Value::from(block.nonce));
    let text = serde_json::Value::Object(m).to_string();

    // Re-decode and rebuild: every field survives unchanged.
    let parsed: serde_json::Value = serde_json::from_str(&text).expect("the wire text is json");
    let decoded = Block {
        block_id: parsed["block_id"].as_u64().expect("a u64 id"),
        hash: parsed["hash"].as_str().expect("a hash string").to_owned(),
        prev_hash: parsed["prev_hash"].as_str().expect("a prev hash string").to_owned(),
        timestamp: parsed["timestamp"].as_i64().expect("an i64 timestamp"),
        data: parsed["data"].as_str().expect("a data string").to_owned(),
        nonce: parsed["nonce"].as_u64().expect("a u64 nonce"),
    };
    assert_eq!(decoded.block_id, block.block_id);
    assert_eq!(decoded.hash, block.hash);
    assert_eq!(decoded.prev_hash, block.prev_hash);
    assert_eq!(decoded.timestamp, block.timestamp);
    assert_eq!(decoded.data, block.data);
    assert_eq!(decoded.nonce, block.nonce);

    // The re-decoded block is still accepted by the validator.
    let mut other = App::new();
    other.blockchain = vec![app.blockchain[0].clone()];
    assert_eq!(other.try_add_block(decoded), Ok(()));
}

#[test]
fn validator_rejects_wrong_prev_hash() {
    let mut app = mined_app(1);
    let mut bad = app.blockchain[1].clone();
    bad.prev_hash = "deadbeef".to_owned();
    bad.block_id = 2;
    let before = app.blockchain.len();
    assert_eq!(app.try_add_block(bad), Err(BlockFault::WrongPrevHash));
    assert_eq!(app.blockchain.len(), before);
}

#[test]
fn validator_rejects_insufficient_difficulty() {
    let mut app = mined_app(1);
    let mut bad = app.blockchain[1].clone();
    bad.prev_hash = app.blockchain[1].hash.clone();
    bad.block_id = 2;
    bad.hash = "ff00ff00".to_owned();
    let before = app.blockchain.len();
    assert_eq!(app.try_add_block(bad), Err(BlockFault::BadDifficulty));
    assert_eq!(app.blockchain.len(), before);

    // A hash that is not even decodable hex cannot show enough work either.
    let mut undecodable = app.blockchain[1].clone();
    undecodable.prev_hash = app.blockchain[1].hash.clone();
    undecodable.hash = "not hex at all".to_owned();
    assert_eq!(app.try_add_block(undecodable), Err(BlockFault::BadDifficulty));
    assert_eq!(app.blockchain.len(), before);
}

#[test]
fn validator_rejects_out_of_sequence_id() {
    let mut app = mined_app(0);
    let next = {
        let mut helper = mined_app(0);
        helper.blockchain = clone_blocks(&app.blockchain);
        helper.handle_create_block("x".to_owned()).expect("mining succeeds")
    };
    let mut bad = next.clone();
    bad.block_id = 5;
    let before = app.blockchain.len();
    assert_eq!(app.try_add_block(bad), Err(BlockFault::OutOfSequence));
    assert_eq!(app.blockchain.len(), before);
}

#[test]
fn validator_rejects_tampered_data_and_nonce() {
    let mut app = mined_app(1);
    let good = app.blockchain[1].clone();

    let mut app_a = App::new();
    app_a.blockchain = vec![app.blockchain[0].clone()];
    let mut tampered_data = good.clone();
    tampered_data.data = "tampered".to_owned();
    assert_eq!(app_a.try_add_block(tampered_data), Err(BlockFault::WrongHash));
    assert_eq!(app_a.blockchain.len(), 1);

    let mut tampered_nonce = good.clone();
    tampered_nonce.nonce = good.nonce.wrapping_add(1);
    assert_eq!(app_a.try_add_block(tampered_nonce), Err(BlockFault::WrongHash));
    assert_eq!(app_a.blockchain.len(), 1);

    let accepted = app_a.try_add_block(good);
    assert_eq!(accepted, Ok(()));
    assert_eq!(app_a.blockchain.len(), 2);
}

#[test]
fn fork_choice_longer_valid_chain_wins() {
    let app3 = mined_app(2);
    let app5 = mined_app(4);
    assert_eq!(app3.blockchain.len(), 3);
    assert_eq!(app5.blockchain.len(), 5);

    let chosen = app3
        .choose_chain(clone_blocks(&app3.blockchain), clone_blocks(&app5.blockchain))
        .expect("both chains are valid");
    assert_eq!(chosen.len(), 5);
    assert_eq!(chosen[4].hash, app5.blockchain[4].hash);

    // Symmetrically: the longer chain wins also when it is the local one.
    let chosen = app3
        .choose_chain(clone_blocks(&app5.blockchain), clone_blocks(&app3.blockchain))
        .expect("both chains are valid");
    assert_eq!(chosen.len(), 5);
}

#[test]
fn fork_choice_valid_chain_beats_longer_invalid_chain() {
    let valid = mined_app(1);
    let mut invalid = mined_app(3);
    invalid.blockchain[2].data = "rewritten history".to_owned();
    assert!(!valid.is_chain_valid(&invalid.blockchain));

    let chosen = valid
        .choose_chain(clone_blocks(&valid.blockchain), clone_blocks(&invalid.blockchain))
        .expect("one chain is valid");
    assert_eq!(chosen.len(), 2);
    assert_eq!(chosen[1].hash, valid.blockchain[1].hash);

    let chosen = valid
        .choose_chain(clone_blocks(&invalid.blockchain), clone_blocks(&valid.blockchain))
        .expect("one chain is valid");
    assert_eq!(chosen.len(), 2);
    assert_eq!(chosen[1].hash, valid.blockchain[1].hash);
}

#[test]
fn fork_choice_reports_both_invalid_without_crashing() {
    let referee = mined_app(0);
    let mut bad_a = mined_app(1);
    bad_a.blockchain[1].data = "tampered a".to_owned();
    let mut bad_b = mined_app(1);
    bad_b.blockchain[1].data = "tampered b".to_owned();

    let verdict = referee.choose_chain(clone_blocks(&bad_a.blockchain), clone_blocks(&bad_b.blockchain));
    assert!(matches!(verdict, Err(ForkError::BothInvalid)));
}

#[test]
fn equal_length_forks_from_shared_genesis_prefer_local() {
    let mut local = mined_app(0);
    let mut remote = App::new();
    remote.blockchain = clone_blocks(&local.blockchain);

    local.handle_create_block("ours".to_owned()).expect("mining succeeds");
    remote.handle_create_block("theirs".to_owned()).expect("mining succeeds");
    assert!(local.is_chain_valid(&local.blockchain));
    assert!(local.is_chain_valid(&remote.blockchain));
    assert_eq!(local.blockchain.len(), remote.blockchain.len());

    let chosen = local
        .choose_chain(clone_blocks(&local.blockchain), clone_blocks(&remote.blockchain))
        .expect("both chains are valid");
    assert_eq!(chosen[1].hash, local.blockchain[1].hash);
    assert_eq!(chosen[1].data, "ours");
}
