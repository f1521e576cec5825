use repo_exporter::export::markdown::{export_file_name, render_markdown};
use repo_exporter::github::types::FetchedFile;
use repo_exporter::input::parser::ParseError;
use repo_exporter::ui::menu::{Complaint, Menu, MenuStep};

fn ask(menu: Menu) -> MenuStep {
    MenuStep::Ask { menu, complaint: None }
}

fn back(complaint: Complaint) -> MenuStep {
    MenuStep::Ask { menu: Menu::Choosing, complaint: Some(complaint) }
}

fn done(owner: &str, repo: &str) -> MenuStep {
    MenuStep::Done(Ok((owner.to_string(), repo.to_string())))
}

#[test]
fn the_menu_begins_with_the_choice() {
    assert_eq!(Menu::new(), Menu::Choosing);
}

#[test]
fn choices_of_the_menu() {
    assert_eq!(Menu::new().answer("1\n"), ask(Menu::AwaitingUrl));
    assert_eq!(Menu::new().answer(" 2 "), ask(Menu::AwaitingPair));
    assert_eq!(Menu::new().answer("3"), ask(Menu::AwaitingOwner));
    assert_eq!(Menu::new().answer("4\r\n"), MenuStep::Exit);
    assert_eq!(Menu::new().answer("5"), back(Complaint::InvalidChoice));
    assert_eq!(Menu::new().answer(""), back(Complaint::InvalidChoice));
    assert_eq!(Menu::new().answer("11"), back(Complaint::InvalidChoice));
    assert_eq!(Menu::new().answer("one"), back(Complaint::InvalidChoice));
}

#[test]
fn an_address_is_parsed() {
    assert_eq!(Menu::AwaitingUrl.answer("https://github.com/a/b.git\n"), done("a", "b"));
    assert_eq!(Menu::AwaitingUrl.answer("a/b\n"), MenuStep::Done(Err(ParseError::InvalidUrl)));
    assert_eq!(Menu::AwaitingUrl.answer(" \n"), back(Complaint::EmptyUrl));
}

#[test]
fn a_pair_is_parsed() {
    assert_eq!(Menu::AwaitingPair.answer(" tidynest/repo_exporter \n"), done("tidynest", "repo_exporter"));
    assert_eq!(
        Menu::AwaitingPair.answer("tidynest\n"),
        MenuStep::Done(Err(ParseError::InvalidFormat))
    );
    assert_eq!(Menu::AwaitingPair.answer("a/b/c"), MenuStep::Done(Err(ParseError::InvalidRepository)));
    assert_eq!(Menu::AwaitingPair.answer("\n"), back(Complaint::EmptyInput));
}

#[test]
fn owner_and_repository_one_after_the_other() {
    assert_eq!(
        Menu::AwaitingOwner.answer(" tidynest\n"),
        ask(Menu::AwaitingRepo { owner: "tidynest".to_string() })
    );
    assert_eq!(Menu::AwaitingOwner.answer("\t\n"), back(Complaint::EmptyOwner));
    assert_eq!(
        Menu::AwaitingRepo { owner: "tidynest".to_string() }.answer("toolkit \n"),
        done("tidynest", "toolkit")
    );
    assert_eq!(
        Menu::AwaitingRepo { owner: "tidynest".to_string() }.answer("a/b/c\n"),
        done("tidynest", "a/b/c")
    );
    assert_eq!(
        Menu::AwaitingRepo { owner: "tidynest".to_string() }.answer("\n"),
        back(Complaint::EmptyRepo)
    );
}

#[test]
fn a_whole_dialogue() {
    let step = Menu::new().answer("9\n");
    let menu = match step {
        MenuStep::Ask { menu, complaint } => {
            assert_eq!(complaint, Some(Complaint::InvalidChoice));
            menu
        }
        other => panic!("{:?}", other),
    };
    let menu = match menu.answer("3\n") {
        MenuStep::Ask { menu, complaint: None } => menu,
        other => panic!("{:?}", other),
    };
    let menu = match menu.answer("octo\n") {
        MenuStep::Ask { menu, complaint: None } => menu,
        other => panic!("{:?}", other),
    };
    assert_eq!(menu.answer("demo\n"), done("octo", "demo"));
}

#[test]
fn the_document_of_an_export() {
    let files = vec![
        FetchedFile { path: "README.md".to_string(), content: "# Test".to_string() },
        FetchedFile { path: "src/main.rs".to_string(), content: "fn main() {}".to_string() },
    ];
    assert_eq!(
        render_markdown("owner", "repo", &files),
        "# Repository Export: owner/repo\n\n## README.md\n\n```text\n# Test\n```\n## src/main.rs\n\n```text\nfn main() {}\n```\n"
    );
    assert_eq!(render_markdown("o", "r", &vec![]), "# Repository Export: o/r\n\n");
}

#[test]
fn the_name_of_an_export() {
    assert_eq!(export_file_name("repo", "20240131_235959"), "repo_repo_export_20240131_235959.md");
    assert_eq!(export_file_name("", ""), "_repo_export_.md");
}
