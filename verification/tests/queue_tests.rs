use code_lens::events::{
    handler_actions, AnalyzeRepositoryData, Event, EventQueue, HandlerAction,
    EVENT_QUEUE_CAPACITY,
};

fn docs_event(id: &str, path: &str, email: &str) -> Event {
    Event::InitDocsGen(AnalyzeRepositoryData {
        repo_id: id.to_string(),
        clone_path: path.to_string(),
        owner_email: email.to_string(),
    })
}

#[test]
fn publishing_past_capacity_drops_instead_of_blocking() {
    let mut q = EventQueue::new();
    let mut accepted = 0;
    let mut dropped = 0;
    for _ in 0..150 {
        if q.publish(Event::SendEmail) {
            accepted += 1;
        } else {
            dropped += 1;
        }
    }
    assert_eq!(accepted, EVENT_QUEUE_CAPACITY);
    assert_eq!(dropped, 150 - EVENT_QUEUE_CAPACITY);
    assert_eq!(q.len(), EVENT_QUEUE_CAPACITY);
}

#[test]
fn queue_delivers_in_publish_order() {
    let mut q = EventQueue::new();
    assert!(q.publish(docs_event("one", "/tmp/1", "a@example.com")));
    assert!(q.publish(Event::SendEmail));
    assert!(q.publish(docs_event("two", "/tmp/2", "b@example.com")));
    assert_eq!(q.recv(), Some(docs_event("one", "/tmp/1", "a@example.com")));
    assert_eq!(q.recv(), Some(Event::SendEmail));
    assert_eq!(q.recv(), Some(docs_event("two", "/tmp/2", "b@example.com")));
    assert_eq!(q.recv(), None);
    assert_eq!(q.len(), 0);
}

#[test]
fn full_queue_keeps_its_contents() {
    let mut q = EventQueue::new();
    for _ in 0..EVENT_QUEUE_CAPACITY {
        assert!(q.publish(Event::SendEmail));
    }
    assert!(!q.publish(docs_event("late", "/tmp/late", "c@example.com")));
    for _ in 0..EVENT_QUEUE_CAPACITY {
        assert_eq!(q.recv(), Some(Event::SendEmail));
    }
    assert_eq!(q.recv(), None);
}

#[test]
fn plain_notification_event_has_no_actions() {
    assert!(handler_actions(&Event::SendEmail).is_empty());
}

#[test]
fn docs_event_notifies_and_posts() {
    let actions = handler_actions(&docs_event("repo-9", "/clones/repo-9", "dev@example.com"));
    assert_eq!(actions.len(), 2);
    match &actions[0] {
        HandlerAction::SendMail(m) => {
            assert_eq!(m.to, "dev@example.com");
            assert_eq!(
                m.subject,
                "Documentation generation started for repository repo-9"
            );
            assert_eq!(
                m.html,
                "<html><body><h1>Documentation generation started</h1><p>Repository: {{repository_name}}</p></body></html>"
            );
        }
        other => panic!("unexpected action: {:?}", other),
    }
    match &actions[1] {
        HandlerAction::PostDocsGen { url, body } => {
            assert_eq!(url, "http://code-lens-wiki:3000/docs-gen");
            assert_eq!(
                body,
                "{\"repo_id\":\"repo-9\",\"repo_path\":\"/clones/repo-9\"}"
            );
        }
        other => panic!("unexpected action: {:?}", other),
    }
}

#[test]
fn docs_event_body_escapes_json_characters() {
    let actions = handler_actions(&docs_event("id\"x", "/tmp/a\\b", "e@example.com"));
    match &actions[1] {
        HandlerAction::PostDocsGen { body, .. } => {
            assert_eq!(
                body,
                "{\"repo_id\":\"id\\\"x\",\"repo_path\":\"/tmp/a\\\\b\"}"
            );
        }
        other => panic!("unexpected action: {:?}", other),
    }
}
