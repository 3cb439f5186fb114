use inner_shelter::entities::MoveCommand;
use inner_shelter::wire::{assemble_move, decode_move, move_from_json};

fn value(text: &str) -> serde_json::Value {
    serde_json::from_str(text).unwrap()
}

#[test]
fn a_move_command_is_decoded() {
    let cmd = decode_move("{\"action\":\"move\",\"dx\":-10,\"dy\":20}").unwrap();
    assert_eq!(cmd.action, "move");
    assert_eq!((cmd.dx, cmd.dy), (-10, 20));
    assert!(cmd.is_move());
}

#[test]
fn the_action_tag_is_kept_as_it_came() {
    let cmd = decode_move("{\"action\":\"dance\",\"dx\":1,\"dy\":2}").unwrap();
    assert_eq!(cmd.action, "dance");
    assert!(!cmd.is_move());
}

#[test]
fn the_order_of_the_members_and_other_members_do_not_matter() {
    let cmd = decode_move(" { \"dy\": 0, \"extra\": [1, 2], \"dx\": 3, \"action\": \"move\" } ").unwrap();
    assert_eq!((cmd.action.as_str(), cmd.dx, cmd.dy), ("move", 3, 0));
}

#[test]
fn escapes_in_the_action_are_resolved() {
    let cmd = decode_move("{\"action\":\"m\\u006fve\",\"dx\":1,\"dy\":1}").unwrap();
    assert_eq!(cmd.action, "move");
}

#[test]
fn text_that_is_no_json_is_no_command() {
    assert!(decode_move("").is_none());
    assert!(decode_move("move").is_none());
    assert!(decode_move("{\"action\":\"move\",\"dx\":1,\"dy\":1").is_none());
    assert!(decode_move("{\"action\":\"move\",\"dx\":1,\"dy\":1} trailing").is_none());
}

#[test]
fn json_that_is_no_object_is_no_command() {
    assert!(decode_move("null").is_none());
    assert!(decode_move("42").is_none());
    assert!(decode_move("\"move\"").is_none());
    assert!(decode_move("[\"move\", 1, 2]").is_none());
}

#[test]
fn a_missing_member_makes_no_command() {
    assert!(decode_move("{\"dx\":1,\"dy\":1}").is_none());
    assert!(decode_move("{\"action\":\"move\",\"dy\":1}").is_none());
    assert!(decode_move("{\"action\":\"move\",\"dx\":1}").is_none());
    assert!(decode_move("{}").is_none());
}

#[test]
fn a_member_of_the_wrong_kind_makes_no_command() {
    assert!(decode_move("{\"action\":7,\"dx\":1,\"dy\":1}").is_none());
    assert!(decode_move("{\"action\":\"move\",\"dx\":\"1\",\"dy\":1}").is_none());
    assert!(decode_move("{\"action\":\"move\",\"dx\":1.5,\"dy\":1}").is_none());
    assert!(decode_move("{\"action\":\"move\",\"dx\":1,\"dy\":null}").is_none());
    assert!(decode_move("{\"action\":\"move\",\"dx\":1,\"dy\":true}").is_none());
}

#[test]
fn deltas_are_integers_of_thirty_two_bits() {
    let cmd = decode_move("{\"action\":\"move\",\"dx\":2147483647,\"dy\":-2147483648}").unwrap();
    assert_eq!((cmd.dx, cmd.dy), (i32::MAX, i32::MIN));
    assert!(decode_move("{\"action\":\"move\",\"dx\":2147483648,\"dy\":0}").is_none());
    assert!(decode_move("{\"action\":\"move\",\"dx\":0,\"dy\":-2147483649}").is_none());
    assert!(decode_move("{\"action\":\"move\",\"dx\":18446744073709551615,\"dy\":0}").is_none());
}

#[test]
fn move_from_json_reads_a_parsed_value() {
    let cmd = move_from_json(&value("{\"action\":\"move\",\"dx\":5,\"dy\":-6}")).unwrap();
    assert_eq!((cmd.action.as_str(), cmd.dx, cmd.dy), ("move", 5, -6));
    assert!(move_from_json(&value("[1,2,3]")).is_none());
    assert!(move_from_json(&value("{\"action\":\"move\",\"dx\":5}")).is_none());
    assert!(move_from_json(&serde_json::Value::Null).is_none());
}

#[test]
fn assemble_move_needs_all_three_members_in_range() {
    let cmd: MoveCommand = assemble_move(Some("move".to_string()), Some(1), Some(-1)).unwrap();
    assert_eq!((cmd.action.as_str(), cmd.dx, cmd.dy), ("move", 1, -1));
    assert!(assemble_move(None, Some(1), Some(1)).is_none());
    assert!(assemble_move(Some("move".to_string()), None, Some(1)).is_none());
    assert!(assemble_move(Some("move".to_string()), Some(1), None).is_none());
    assert!(assemble_move(Some("move".to_string()), Some(i64::MAX), Some(1)).is_none());
    assert!(assemble_move(Some("move".to_string()), Some(1), Some(i64::MIN)).is_none());
    assert!(assemble_move(Some("move".to_string()), Some(2147483647), Some(-2147483648)).is_some());
}
