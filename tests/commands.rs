use rustis_core::{
    cmd, CommandArgs, Commands, FlushingMode, GenericCommands, ServerCommands,
    SingleArgOrCollection, ToArgs,
};

fn tokens(list: &[&str]) -> Vec<Vec<u8>> {
    list.iter().map(|t| t.as_bytes().to_vec()).collect()
}

#[test]
fn expire_with_gt_flag_has_key_amount_gt() {
    let c = Commands.expire("mykey", 120).gt();
    assert_eq!(c.name(), b"EXPIRE");
    assert_eq!(c.args().to_vec(), tokens(&["mykey", "120", "GT"]));
    assert_eq!(c.to_wire(), tokens(&["EXPIRE", "mykey", "120", "GT"]));
}

#[test]
fn expire_flags_each_append_one_token() {
    assert_eq!(Commands.pexpire("k", 5).nx().args().to_vec(), tokens(&["k", "5", "NX"]));
    assert_eq!(Commands.expireat("k", 7).xx().args().to_vec(), tokens(&["k", "7", "XX"]));
    assert_eq!(Commands.pexpireat("k", 9).lt().args().to_vec(), tokens(&["k", "9", "LT"]));
    let plain = Commands.expire("k", 0).execute();
    assert_eq!(plain.to_wire(), tokens(&["EXPIRE", "k", "0"]));
}

#[test]
fn copy_with_db_and_replace_keeps_order() {
    let c = Commands.copy("source", "destination").db(3).replace().execute();
    assert_eq!(c.name(), b"COPY");
    assert_eq!(c.args().to_vec(), tokens(&["source", "destination", "DB", "3", "REPLACE"]));
}

#[test]
fn chaining_is_deterministic_and_ordered() {
    let a: rustis_core::generic_commands::Copy = Commands.copy("s", "d");
    let b: rustis_core::generic_commands::Copy = Commands.copy("s", "d");
    let first = a.db(12).replace().execute();
    let second = b.db(12).replace().execute();
    assert_eq!(first.to_wire(), second.to_wire());
    let swapped = Commands.copy("s", "d").replace().db(12).execute();
    assert_eq!(swapped.args().to_vec(), tokens(&["s", "d", "REPLACE", "DB", "12"]));
}

#[test]
fn arg_if_false_is_no_op_and_true_is_arg() {
    let base = cmd("SET").arg("k");
    let skipped = cmd("SET").arg("k").arg_if(false, "NX");
    assert_eq!(skipped.to_wire(), base.to_wire());
    let taken = cmd("SET").arg("k").arg_if(true, "NX");
    let direct = cmd("SET").arg("k").arg("NX");
    assert_eq!(taken.to_wire(), direct.to_wire());

    let mut a = CommandArgs::new();
    a.arg("x").arg_if(false, 5u64).arg_if(true, -7i64);
    assert_eq!(a.to_vec(), tokens(&["x", "-7"]));
}

#[test]
fn single_value_and_one_element_collection_match() {
    let one = Commands.del(SingleArgOrCollection::Single("k1"));
    let many = Commands.del(SingleArgOrCollection::Collection(vec!["k1"]));
    assert_eq!(one.to_wire(), many.to_wire());
    let three = Commands.unlink(SingleArgOrCollection::Collection(vec![
        "a".to_string(),
        "b".to_string(),
        "c".to_string(),
    ]));
    assert_eq!(three.to_wire(), tokens(&["UNLINK", "a", "b", "c"]));
    let none = Commands.exists_(SingleArgOrCollection::<String>::Collection(vec![]));
    assert_eq!(none.to_wire(), tokens(&["EXISTS"]));
}

#[test]
fn integers_render_as_decimal_text() {
    let mut a = CommandArgs::default();
    0u64.write_args(&mut a);
    u64::MAX.write_args(&mut a);
    i64::MIN.write_args(&mut a);
    (-1i64).write_args(&mut a);
    12usize.write_args(&mut a);
    assert_eq!(
        a.to_vec(),
        tokens(&["0", "18446744073709551615", "-9223372036854775808", "-1", "12"])
    );
}

#[test]
fn binary_payload_is_sent_unchanged() {
    let payload = vec![0u8, 255, 10, 13, 0xc3];
    let c = Commands.restore("k", 0, payload.clone()).replace().abs_ttl().idle_time(-5).execute();
    let args = c.args().to_vec();
    assert_eq!(args.len(), 7);
    assert_eq!(args[2], payload);
    assert_eq!(args[3..].to_vec(), tokens(&["REPLACE", "ABSTTL", "IDLETIME", "-5"]));
    let f = Commands.restore("k", 1, vec![]).freq_decimal("2.5").execute();
    assert_eq!(f.args().to_vec()[3..].to_vec(), tokens(&["FREQ", "2.5"]));
}

#[test]
fn scan_options_follow_cursor() {
    let c = Commands.scan(0).match_("user:*").count(100).type_("hash").execute();
    assert_eq!(
        c.to_wire(),
        tokens(&["SCAN", "0", "MATCH", "user:*", "COUNT", "100", "TYPE", "hash"])
    );
}

#[test]
fn simple_commands_have_their_names_and_keys() {
    assert_eq!(Commands.dump("k").to_wire(), tokens(&["DUMP", "k"]));
    assert_eq!(Commands.object_encoding("k").to_wire(), tokens(&["OBJECT", "ENCODING", "k"]));
    assert_eq!(Commands.object_freq("k").to_wire(), tokens(&["OBJECT", "FREQ", "k"]));
    assert_eq!(Commands.object_idle_time("k").to_wire(), tokens(&["OBJECT", "IDLETIME", "k"]));
    assert_eq!(Commands.object_refcount("k").to_wire(), tokens(&["OBJECT", "REFCOUNT", "k"]));
    assert_eq!(Commands.move_("k", 2).to_wire(), tokens(&["MOVE", "k", "2"]));
    assert_eq!(Commands.rename("a", "b").to_wire(), tokens(&["RENAME", "a", "b"]));
    assert_eq!(Commands.renamenx("a", "b").to_wire(), tokens(&["RENAMENX", "a", "b"]));
    assert_eq!(Commands.randomkey().to_wire(), tokens(&["RANDOMKEY"]));
    assert_eq!(Commands.keys("*").to_wire(), tokens(&["KEYS", "*"]));
    assert_eq!(Commands.ttl("k").to_wire(), tokens(&["TTL", "k"]));
    assert_eq!(Commands.pttl("k").to_wire(), tokens(&["PTTL", "k"]));
    assert_eq!(Commands.expiretime("k").to_wire(), tokens(&["EXPIRETIME", "k"]));
    assert_eq!(Commands.pexpiretime("k").to_wire(), tokens(&["PEXPIRETIME", "k"]));
    assert_eq!(Commands.persist("k").to_wire(), tokens(&["PERSIST", "k"]));
    assert_eq!(Commands.type_("k").to_wire(), tokens(&["TYPE", "k"]));
}

#[test]
fn flush_modes_add_their_token() {
    assert_eq!(Commands.flushdb(FlushingMode::default()).to_wire(), tokens(&["FLUSHDB"]));
    assert_eq!(Commands.flushdb(FlushingMode::Async).to_wire(), tokens(&["FLUSHDB", "ASYNC"]));
    assert_eq!(Commands.flushall(FlushingMode::Sync).to_wire(), tokens(&["FLUSHALL", "SYNC"]));
}

#[test]
fn args_build_moves_tokens_out() {
    let mut a = CommandArgs::new();
    assert!(a.is_empty());
    a.arg("one").arg_ref(&"two".to_string());
    assert_eq!(a.len(), 2);
    let b = a.build();
    assert!(a.is_empty());
    assert_eq!(b.to_vec(), tokens(&["one", "two"]));
    assert_eq!(b.get(1), b"two");
    let mut it = b.iter();
    assert_eq!(it.next(), Some(&b"one"[..]));
    assert_eq!(it.next(), Some(&b"two"[..]));
    assert_eq!(it.next(), None);
}

#[test]
fn many_arguments_spill_past_inline_storage() {
    let mut a = CommandArgs::new();
    let mut i: u64 = 0;
    while i < 25 {
        a.arg(i);
        i += 1;
    }
    assert_eq!(a.len(), 25);
    assert_eq!(a.get(24), b"24");
    assert_eq!(a.get(0), b"0");
}

#[test]
fn command_has_debug_output() {
    let c = Commands.scan(5).count(2).execute();
    assert!(format!("{:?}", c).contains("Command"));
}
