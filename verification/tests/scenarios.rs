//! End-to-end scenarios over the in-memory world: the documented flows
//! for listing, marking, jumping, and deleting, and the rules that relate
//! them — round trips, idempotent listing, conflict and miss behaviour,
//! and confirmation gating.

use hop::algebra::hop::{DeleteStatus, HopProgram};
use hop::memory::InMemory;
use hop::models::{HomeType, Link, LinkPair};

fn home() -> HomeType {
    HomeType::Relative(".hop".to_string())
}

#[test]
fn empty_home_lists_nothing() {
    let program = HopProgram { value: InMemory::new("/home/me/.hop"), hop_home_dir: home() };
    let entries = program.list_links().unwrap();
    assert_eq!(Vec::<LinkPair>::new(), entries);
}

#[test]
fn mark_creates_symlink_and_lists_it() {
    let mut world = InMemory::new("/home/me/.hop");
    world.dirs.push("/tmp/somedir".to_string());
    let mut program = HopProgram { value: world, hop_home_dir: home() };
    let current_dir = "/home/me".to_string();
    let target = program
        .mark_dir(&LinkPair::new("blee", "/tmp/somedir"), &current_dir)
        .unwrap();
    assert_eq!("/tmp/somedir", target);
    let entries = program.list_links().unwrap();
    assert_eq!(vec![LinkPair::new("blee", "/tmp/somedir")], entries);
}

#[test]
fn mark_missing_directory_fails_and_creates_nothing() {
    let world = InMemory::new("/home/me/.hop");
    let mut program = HopProgram { value: world, hop_home_dir: home() };
    let current_dir = "/home/me".to_string();
    let err = program
        .mark_dir(&LinkPair::new("blee", "/does/not/exist"), &current_dir)
        .unwrap_err();
    assert!(err.message.contains("/does/not/exist"));
    assert_eq!(
        "A directory named `/does/not/exist` does not exist or you do not have permission to it.",
        err.message
    );
    let entries = program.list_links().unwrap();
    assert_eq!(Vec::<LinkPair>::new(), entries);
}

#[test]
fn jump_finds_target_and_names_misses() {
    let mut world = InMemory::new("/home/me/.hop");
    world.pairs.push(LinkPair::new("tag1", "/d1"));
    world.pairs.push(LinkPair::new("tag2", "/d2"));
    let program = HopProgram { value: world, hop_home_dir: home() };
    assert_eq!("/d2", program.jump_target(Link::new("tag2")).unwrap());
    let err = program.jump_target(Link::new("bogus")).unwrap_err();
    assert_eq!("Could not find link: bogus", err.message);
}

#[test]
fn delete_confirmed_removes_entry_and_second_delete_misses() {
    let mut world = InMemory::new("/home/me/.hop");
    world.pairs.push(LinkPair::new("tag2", "/d2"));
    world.input.push("Y".to_string());
    let mut program = HopProgram { value: world, hop_home_dir: home() };
    let status = program.delete_link(&Link::new("tag2")).unwrap();
    assert_eq!(DeleteStatus::DeleteSucceeded(LinkPair::new("tag2", "/d2")), status);
    assert_eq!(
        vec!["Are you sure you want to delete tag2 which links to /d2 ?".to_string()],
        program.value.output
    );
    assert_eq!(Vec::<LinkPair>::new(), program.value.pairs);
    program.value.input.push("Y".to_string());
    let err = program.delete_link(&Link::new("tag2")).unwrap_err();
    assert_eq!("Could not find link named:`tag2` for deletion", err.message);
}

#[test]
fn delete_declined_keeps_entry() {
    let mut world = InMemory::new("/home/me/.hop");
    world.pairs.push(LinkPair::new("tag2", "/d2"));
    world.input.push("N".to_string());
    let mut program = HopProgram { value: world, hop_home_dir: home() };
    let status = program.delete_link(&Link::new("tag2")).unwrap();
    assert_eq!(DeleteStatus::DeleteAborted, status);
    assert_eq!("/d2", program.jump_target(Link::new("tag2")).unwrap());
}

#[test]
fn mark_then_jump_round_trip() {
    let mut world = InMemory::new("/home/me/.hop");
    world.dirs.push("/base/sub".to_string());
    let mut program = HopProgram { value: world, hop_home_dir: home() };
    let current_dir = "/base".to_string();
    let recorded = program
        .mark_dir(&LinkPair::new("here", "sub"), &current_dir)
        .unwrap();
    assert_eq!("/base/sub", recorded);
    assert_eq!(recorded, program.jump_target(Link::new("here")).unwrap());
}

#[test]
fn listing_twice_returns_the_same_entries() {
    let mut world = InMemory::new("/home/me/.hop");
    world.pairs.push(LinkPair::new("tag1", "/d1"));
    world.pairs.push(LinkPair::new("tag2", "/d2"));
    let program = HopProgram { value: world, hop_home_dir: home() };
    let first = program.list_links().unwrap();
    let second = program.list_links().unwrap();
    assert_eq!(first, second);
}

#[test]
fn marking_existing_name_conflicts_and_keeps_target() {
    let mut world = InMemory::new("/home/me/.hop");
    world.pairs.push(LinkPair::new("tag1", "/d1"));
    world.entries.push("/home/me/.hop/tag1".to_string());
    world.dirs.push("/d9".to_string());
    let mut program = HopProgram { value: world, hop_home_dir: home() };
    let current_dir = "/home/me".to_string();
    let err = program
        .mark_dir(&LinkPair::new("tag1", "/d9"), &current_dir)
        .unwrap_err();
    assert_eq!("A link named `tag1` already exists. Aborting mark creation.", err.message);
    assert_eq!("/d1", program.jump_target(Link::new("tag1")).unwrap());
}

#[test]
fn missing_name_misses_both_ways_without_prompting() {
    let mut world = InMemory::new("/home/me/.hop");
    world.pairs.push(LinkPair::new("tag1", "/d1"));
    world.input.push("Y".to_string());
    let mut program = HopProgram { value: world, hop_home_dir: home() };
    let jump_err = program.jump_target(Link::new("gone")).unwrap_err();
    assert_eq!("Could not find link: gone", jump_err.message);
    let delete_err = program.delete_link(&Link::new("gone")).unwrap_err();
    assert_eq!("Could not find link named:`gone` for deletion", delete_err.message);
    assert_eq!(Vec::<String>::new(), program.value.output);
    assert_eq!(vec!["Y".to_string()], program.value.input);
}

#[test]
fn only_y_answers_confirm_a_delete() {
    for answer in ["n", "", "yes", "N", "Y ", " y"] {
        let mut world = InMemory::new("/home/me/.hop");
        world.pairs.push(LinkPair::new("tag1", "/d1"));
        world.input.push(answer.to_string());
        let mut program = HopProgram { value: world, hop_home_dir: home() };
        let status = program.delete_link(&Link::new("tag1")).unwrap();
        assert_eq!(DeleteStatus::DeleteAborted, status);
        assert_eq!(vec![LinkPair::new("tag1", "/d1")], program.value.pairs);
    }
    for answer in ["Y", "y"] {
        let mut world = InMemory::new("/home/me/.hop");
        world.pairs.push(LinkPair::new("tag1", "/d1"));
        world.input.push(answer.to_string());
        let mut program = HopProgram { value: world, hop_home_dir: home() };
        let status = program.delete_link(&Link::new("tag1")).unwrap();
        assert_eq!(DeleteStatus::DeleteSucceeded(LinkPair::new("tag1", "/d1")), status);
        assert_eq!(Vec::<LinkPair>::new(), program.value.pairs);
    }
}

#[test]
fn delete_with_no_input_fails_after_prompting() {
    let mut world = InMemory::new("/home/me/.hop");
    world.pairs.push(LinkPair::new("tag1", "/d1"));
    let mut program = HopProgram { value: world, hop_home_dir: home() };
    let err = program.delete_link(&Link::new("tag1")).unwrap_err();
    assert_eq!("Could not retrieve lines from stdio", err.message);
    assert_eq!(
        vec!["Are you sure you want to delete tag1 which links to /d1 ?".to_string()],
        program.value.output
    );
    assert_eq!(vec![LinkPair::new("tag1", "/d1")], program.value.pairs);
}

#[test]
fn tabulate_returns_the_same_pairs_as_list() {
    let mut world = InMemory::new("/home/me/.hop");
    world.pairs.push(LinkPair::new("tag1", "/d1"));
    world.pairs.push(LinkPair::new("tag2", "/d2"));
    let program = HopProgram { value: world, hop_home_dir: home() };
    assert_eq!(program.list_links().unwrap(), program.tabulate_links().unwrap());
}
