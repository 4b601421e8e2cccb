use std::time::{Duration, Instant};
use ticket_store::{
    Status, TicketDescription, TicketDraft, TicketPatch, TicketStore, TicketTitle,
};

fn generate_ticket_draft() -> TicketDraft {
    let description = TicketDescription::new("A description of the work to do".to_string()).unwrap();
    let title = TicketTitle::new("A title".to_string()).unwrap();

    TicketDraft { title, description }
}

fn generate_ticket_patch(status: Status) -> TicketPatch {
    let description = TicketDescription::new("Another description".to_string()).unwrap();
    let title = TicketTitle::new("Another title".to_string()).unwrap();

    TicketPatch {
        title: Some(title),
        description: Some(description),
        status: Some(status),
    }
}

fn pause(millis: u64) {
    let start = Instant::now();
    while start.elapsed() < Duration::from_millis(millis) {}
}

#[test]
fn updating_nothing_leaves_the_updatable_fields_unchanged() {
    let mut store = TicketStore::new();
    let draft = generate_ticket_draft();
    let ticket_id = store.save(draft.clone());

    let patch = TicketPatch {
        title: None,
        description: None,
        status: None,
    };
    let updated_ticket = store.update(&ticket_id, patch).unwrap();

    assert_eq!(&draft.title, updated_ticket.title());
    assert_eq!(&draft.description, updated_ticket.description());
    assert_eq!(&Status::ToDo, updated_ticket.status());
}

#[test]
fn trying_to_update_a_missing_ticket_returns_none() {
    let mut store = TicketStore::new();
    let ticket_id = 42;
    let patch = generate_ticket_patch(Status::Done);

    assert_eq!(store.update(&ticket_id, patch), None);
}

#[test]
fn update_works() {
    let mut store = TicketStore::new();
    let draft = generate_ticket_draft();
    let patch = generate_ticket_patch(Status::Done);
    let ticket_id = store.save(draft.clone());

    pause(100);
    let updated_ticket = store.update(&ticket_id, patch.clone()).unwrap();

    assert_eq!(&patch.title.unwrap(), updated_ticket.title());
    assert_eq!(&patch.description.unwrap(), updated_ticket.description());
    assert_eq!(&patch.status.unwrap(), updated_ticket.status());
    assert_ne!(updated_ticket.created_at(), updated_ticket.updated_at());
}

#[test]
fn delete_works() {
    let mut store = TicketStore::new();
    let draft = generate_ticket_draft();
    let ticket_id = store.save(draft.clone());
    let ticket = store.get(&ticket_id).unwrap().to_owned();

    let deleted_ticket = store.delete(&ticket_id).unwrap();

    assert_eq!(deleted_ticket.ticket(), &ticket);
    assert_eq!(store.get(&ticket_id), None);
}

#[test]
fn deleting_a_missing_ticket_returns_none() {
    let mut store = TicketStore::new();
    let ticket_id = 42;

    assert_eq!(store.delete(&ticket_id), None);
}

#[test]
fn list_returns_all_tickets() {
    let n_tickets = 100;
    let mut store = TicketStore::new();

    for _ in 0..n_tickets {
        let draft = generate_ticket_draft();
        store.save(draft);
    }

    assert_eq!(n_tickets, store.list().len());
}

#[test]
fn on_a_single_ticket_list_and_get_agree() {
    let mut store = TicketStore::new();

    let draft = generate_ticket_draft();
    let id = store.save(draft);

    assert_eq!(vec![store.get(&id).unwrap()], store.list());
}

#[test]
fn list_returns_an_empty_vec_on_an_empty_store() {
    let store = TicketStore::new();

    assert!(store.list().is_empty());
}

#[test]
fn title_cannot_be_empty() {
    assert!(TicketTitle::new("".into()).is_err())
}

#[test]
fn title_cannot_be_longer_than_fifty_chars() {
    for len in [51, 52, 100, 9_999] {
        let title = "t".repeat(len);

        assert!(TicketTitle::new(title).is_err())
    }
}

#[test]
fn description_cannot_be_longer_than_3000_chars() {
    for len in [3001, 3002, 5000, 9_999] {
        let description = "d".repeat(len);

        assert!(TicketDescription::new(description).is_err())
    }
}

#[test]
fn a_ticket_with_a_home() {
    let draft = generate_ticket_draft();
    let mut store = TicketStore::new();

    let ticket_id = store.save(draft.clone());
    let retrieved_ticket = store.get(&ticket_id).unwrap();

    assert_eq!(&ticket_id, retrieved_ticket.id());
    assert_eq!(&draft.title, retrieved_ticket.title());
    assert_eq!(&draft.description, retrieved_ticket.description());
    assert_eq!(&Status::ToDo, retrieved_ticket.status());
    assert_eq!(retrieved_ticket.created_at(), retrieved_ticket.updated_at());
}

#[test]
fn a_missing_ticket() {
    let ticket_store = TicketStore::new();
    let ticket_id = 42;

    assert_eq!(ticket_store.get(&ticket_id), None);
}

#[test]
fn id_generation_is_monotonic() {
    let n_tickets = 100;
    let mut store = TicketStore::new();

    for expected_id in 1..n_tickets {
        let draft = generate_ticket_draft();
        let ticket_id = store.save(draft);
        assert_eq!(expected_id, ticket_id);
    }
}

#[test]
fn ids_are_not_reused() {
    let n_tickets = 100;
    let mut store = TicketStore::new();

    for expected_id in 1..n_tickets {
        let draft = generate_ticket_draft();
        let ticket_id = store.save(draft);
        assert_eq!(expected_id, ticket_id);
        assert!(store.delete(&ticket_id).is_some());
    }
}
