//! The program operations exercised through the in-memory capability
//! provider: listing, jumping, marking, and deleting, on the happy paths
//! and on each scripted failure.

use hop::algebra::hop::{DeleteStatus, HopProgram};
use hop::memory::InMemory;
use hop::models::{HomeType, Link, LinkPair};

fn two_links_world() -> InMemory {
    let mut world = InMemory::new("/xyz/.your-hop");
    world.pairs.push(LinkPair::new("myLink", "/my/path/to/link"));
    world.pairs.push(LinkPair::new("myOtherLink", "/my/path/to/Otherlink"));
    world
}

fn hop_home() -> HomeType {
    HomeType::Relative(".hop".to_string())
}

#[test]
fn list_links_success() {
    let program = HopProgram { value: two_links_world(), hop_home_dir: hop_home() };
    match program.list_links() {
        Ok(entries) => {
            let names: Vec<String> = entries.iter().map(|lp| lp.link.0.clone()).collect();
            assert_eq!(vec!["myLink".to_string(), "myOtherLink".to_string()], names);
        }
        Err(e) => panic!("{}: Expected an Ok but got err", e.message),
    }
}

#[test]
fn list_links_home_dir_failure() {
    let mut world = InMemory::new("/xyz/.your-hop");
    world.home_error = Some("Failed to get home dir".to_string());
    let program = HopProgram {
        value: world,
        hop_home_dir: HomeType::Relative(".blah".to_string()),
    };
    match program.list_links() {
        Err(e) => assert_eq!(e.message, "Failed to get home dir"),
        Ok(_) => panic!("Expected an Err but got Ok"),
    }
}

#[test]
fn list_links_read_links_failure() {
    let mut world = InMemory::new("/xyz/.your-hop");
    world.read_error = Some("Failed to read links".to_string());
    let program = HopProgram {
        value: world,
        hop_home_dir: HomeType::Relative(".blah".to_string()),
    };
    match program.list_links() {
        Err(e) => assert_eq!(e.message, "Failed to read links"),
        Ok(_) => panic!("Expected an Err but got Ok"),
    }
}

#[test]
fn list_links_read_links_no_result() {
    let world = InMemory::new("/xyz/.your-hop");
    let program = HopProgram {
        value: world,
        hop_home_dir: HomeType::Relative(".blah".to_string()),
    };
    match program.list_links() {
        Ok(entries) => {
            assert!(entries.is_empty(), "Expected output to be empty but got: {:?}", entries)
        }
        Err(e) => panic!("{}: Expected an Ok but got err", e.message),
    }
}

#[test]
fn jump_target_success() {
    let program = HopProgram { value: two_links_world(), hop_home_dir: hop_home() };
    match program.jump_target(Link::new("myOtherLink")) {
        Ok(target) => assert_eq!("/my/path/to/Otherlink", target),
        Err(e) => panic!("{}: Expected an Ok but got err", e.message),
    }
}

#[test]
fn jump_target_not_found() {
    let program = HopProgram { value: two_links_world(), hop_home_dir: hop_home() };
    match program.jump_target(Link::new("bizarre")) {
        Err(e) => assert_eq!(e.message, "Could not find link: bizarre"),
        Ok(_) => panic!("Expected an Err but got Ok"),
    }
}

#[test]
fn jump_target_without_links() {
    let program = HopProgram { value: InMemory::new("/xyz/.your-hop"), hop_home_dir: hop_home() };
    match program.jump_target(Link::new("myLink")) {
        Err(e) => assert_eq!(e.message, "Could not find link: myLink"),
        Ok(_) => panic!("Expected an Err but got Ok"),
    }
}

#[test]
fn mark_dir_success() {
    let mut world = InMemory::new("/xyz/.your-hop");
    world.dirs.push("/my/path/to/link".to_string());
    let mut program = HopProgram { value: world, hop_home_dir: hop_home() };
    let current_dir = "/somewhere".to_string();
    match program.mark_dir(&LinkPair::new("myLink", "/my/path/to/link"), &current_dir) {
        Ok(target) => {
            assert_eq!("/my/path/to/link", target);
            assert_eq!(Vec::<String>::new(), program.value.output);
        }
        Err(e) => panic!("{}: Expected an Ok but got err", e.message),
    }
}

#[test]
fn mark_dir_dir_does_not_exist() {
    let world = InMemory::new("/xyz/.your-hop");
    let mut program = HopProgram { value: world, hop_home_dir: hop_home() };
    let current_dir = "/somewhere".to_string();
    match program.mark_dir(&LinkPair::new("myLink", "/my/path/to/link"), &current_dir) {
        Ok(_) => panic!("Expected an Err but got Ok"),
        Err(e) => assert_eq!(
            "A directory named `/my/path/to/link` does not exist or you do not have permission to it.",
            e.message
        ),
    }
}

#[test]
fn mark_dir_link_exists() {
    let mut world = InMemory::new("/xyz/.your-hop");
    world.dirs.push("/my/path/to/link".to_string());
    world.entries.push("/xyz/.your-hop/myLink".to_string());
    let mut program = HopProgram { value: world, hop_home_dir: hop_home() };
    let current_dir = "/somewhere".to_string();
    match program.mark_dir(&LinkPair::new("myLink", "/my/path/to/link"), &current_dir) {
        Ok(_) => panic!("Expected an Err but got Ok"),
        Err(e) => assert_eq!(
            "A link named `myLink` already exists. Aborting mark creation.",
            e.message
        ),
    }
}

#[test]
fn mark_dir_write_link_failed() {
    let mut world = InMemory::new("/xyz/.your-hop");
    world.dirs.push("/my/path/to/link".to_string());
    world.write_error = Some("Could not create link because this is a test".to_string());
    let mut program = HopProgram { value: world, hop_home_dir: hop_home() };
    let current_dir = "/somewhere".to_string();
    match program.mark_dir(&LinkPair::new("myLink", "/my/path/to/link"), &current_dir) {
        Ok(_) => panic!("Expected an Err but got Ok"),
        Err(e) => assert_eq!("Could not create link because this is a test", e.message),
    }
}

#[test]
fn delete_link_success() {
    let mut world = two_links_world();
    world.input.push("Y".to_string());
    let mut program = HopProgram { value: world, hop_home_dir: hop_home() };
    match program.delete_link(&Link::new("myLink")) {
        Ok(status) => {
            assert_eq!(
                DeleteStatus::DeleteSucceeded(LinkPair::new("myLink", "/my/path/to/link")),
                status
            );
            let expected = vec![
                "Are you sure you want to delete myLink which links to /my/path/to/link ?"
                    .to_string(),
            ];
            assert_eq!(expected, program.value.output);
            assert_eq!(Vec::<String>::new(), program.value.input);
            assert_eq!(vec![LinkPair::new("myOtherLink", "/my/path/to/Otherlink")], program.value.pairs);
        }
        Err(e) => panic!("Expected an Ok but got Err: {}", e.message),
    }
}

#[test]
fn delete_link_aborted() {
    let mut world = two_links_world();
    world.input.push("N".to_string());
    let mut program = HopProgram { value: world, hop_home_dir: hop_home() };
    match program.delete_link(&Link::new("myLink")) {
        Ok(status) => {
            assert_eq!(DeleteStatus::DeleteAborted, status);
            let expected = vec![
                "Are you sure you want to delete myLink which links to /my/path/to/link ?"
                    .to_string(),
            ];
            assert_eq!(expected, program.value.output);
            assert_eq!(Vec::<String>::new(), program.value.input);
        }
        Err(e) => panic!("Expected an Ok but got Err: {}", e.message),
    }
}

#[test]
fn delete_link_link_not_found() {
    let mut world = two_links_world();
    world.input.push("N".to_string());
    let mut program = HopProgram { value: world, hop_home_dir: hop_home() };
    match program.delete_link(&Link::new("notALink")) {
        Err(e) => {
            assert_eq!(e.message, "Could not find link named:`notALink` for deletion");
            assert_eq!(Vec::<String>::new(), program.value.output);
            assert_eq!(vec!["N".to_string()], program.value.input);
        }
        Ok(_) => panic!("Expected an Err but got Ok"),
    }
}

#[test]
fn delete_link_failed() {
    let mut world = two_links_world();
    world.input.push("Y".to_string());
    world.delete_error = Some("Failed to delete: myLink -> /my/path/to/link".to_string());
    let mut program = HopProgram { value: world, hop_home_dir: hop_home() };
    match program.delete_link(&Link::new("myLink")) {
        Ok(_) => panic!("Expected Err but got Ok"),
        Err(e) => {
            assert_eq!("Failed to delete: myLink -> /my/path/to/link", e.message);
            let expected = vec![
                "Are you sure you want to delete myLink which links to /my/path/to/link ?"
                    .to_string(),
            ];
            assert_eq!(expected, program.value.output);
            assert_eq!(Vec::<String>::new(), program.value.input);
        }
    }
}
