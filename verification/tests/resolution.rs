use nibl_search::model::{AppError, Bot, BotList, Package, SearchResult};
use nibl_search::resolve::{resolve, summary_line};

fn bot(id: i64, name: &str) -> Bot {
    Bot {
        id,
        name: name.to_string(),
    }
}

fn package(bot_id: i64, number: i32) -> Package {
    Package { bot_id, number }
}

#[test]
fn ok_bot_list_yields_its_content() {
    let list = BotList {
        status: "OK".to_string(),
        message: String::new(),
        content: vec![bot(1, "BotA"), bot(2, "BotB")],
    };
    let bots = list.into_content().unwrap_or_else(|_| panic!("expected content"));
    assert_eq!(bots.len(), 2);
    assert_eq!(bots[0].id, 1);
    assert_eq!(bots[0].name, "BotA");
    assert_eq!(bots[1].id, 2);
    assert_eq!(bots[1].name, "BotB");
}

#[test]
fn non_ok_bot_list_surfaces_the_message() {
    let list = BotList {
        status: "ERROR".to_string(),
        message: "boom".to_string(),
        content: vec![],
    };
    match list.into_content() {
        Err(e) => {
            assert!(matches!(&e, AppError::BotListFailed(m) if m == "boom"));
            assert_eq!(e.diagnostic(), "Could not fetch bot list: boom");
        }
        Ok(_) => panic!("expected an error"),
    }
}

#[test]
fn non_ok_search_surfaces_the_message() {
    let search = SearchResult {
        status: "FAIL".to_string(),
        message: "index down".to_string(),
        content: vec![],
    };
    match search.into_content() {
        Err(e) => {
            assert!(matches!(&e, AppError::SearchFailed(m) if m == "index down"));
            assert_eq!(e.diagnostic(), "Could not search package: index down");
        }
        Ok(_) => panic!("expected an error"),
    }
}

#[test]
fn ok_search_yields_its_content() {
    let search = SearchResult {
        status: "OK".to_string(),
        message: String::new(),
        content: vec![package(2, 42)],
    };
    let packages = search.into_content().unwrap_or_else(|_| panic!("expected content"));
    assert_eq!(packages.len(), 1);
    assert_eq!(packages[0].bot_id, 2);
    assert_eq!(packages[0].number, 42);
}

#[test]
fn first_search_hit_resolves_to_its_bot() {
    let bots = vec![bot(1, "BotA"), bot(2, "BotB")];
    let packages = vec![package(2, 42)];
    match resolve(&bots, &packages) {
        Ok((b, p)) => {
            assert_eq!(b.name, "BotB");
            assert_eq!(p.number, 42);
            assert_eq!(summary_line(&b.name, p.number), "Package: BotB - 42");
        }
        Err(_) => panic!("expected a match"),
    }
}

#[test]
fn empty_search_results_are_fatal() {
    let bots = vec![bot(1, "BotA")];
    let packages: Vec<Package> = vec![];
    match resolve(&bots, &packages) {
        Err(AppError::NoResults) => {}
        _ => panic!("expected the no-results error"),
    }
}

#[test]
fn unknown_bot_reference_is_fatal() {
    let bots = vec![bot(1, "BotA"), bot(2, "BotB")];
    let packages = vec![package(9, 1)];
    match resolve(&bots, &packages) {
        Err(AppError::UnknownBot) => {}
        _ => panic!("expected the unknown-bot error"),
    }
}

#[test]
fn first_matching_bot_wins() {
    let bots = vec![bot(2, "First"), bot(2, "Second")];
    let packages = vec![package(2, 3)];
    match resolve(&bots, &packages) {
        Ok((b, _)) => assert_eq!(b.name, "First"),
        Err(_) => panic!("expected a match"),
    }
}

#[test]
fn only_the_first_package_is_resolved() {
    let bots = vec![bot(1, "BotA"), bot(2, "BotB")];
    let packages = vec![package(1, 7), package(2, 8)];
    match resolve(&bots, &packages) {
        Ok((b, p)) => {
            assert_eq!(b.name, "BotA");
            assert_eq!(p.number, 7);
        }
        Err(_) => panic!("expected a match"),
    }
}

#[test]
fn consistency_diagnostics_are_non_empty() {
    assert!(!AppError::NoResults.diagnostic().is_empty());
    assert!(!AppError::UnknownBot.diagnostic().is_empty());
}

#[test]
fn summary_line_handles_negative_numbers() {
    assert_eq!(summary_line("Bot", -5), "Package: Bot - -5");
}
