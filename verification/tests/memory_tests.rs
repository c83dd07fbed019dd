use chrono::{DateTime, Utc};
use claude_code_rs::api::{Client, ContentBlock};
use claude_code_rs::memory::models::{
    age_warning_for, days_from_to, days_since, MemoryFrontmatter, MemoryMetadata, MemoryType, Timestamp,
};
use claude_code_rs::memory::retriever::{format_memory_entry, paths_from_text, MemoryRetriever};
use claude_code_rs::memory::scanner::{memory_headers, select_recent, MemoryScanner};

fn ts(secs: i64, nanos: u32) -> Timestamp {
    Timestamp { secs, nanos }
}

fn memory(name: &str, t: MemoryType, secs: i64) -> MemoryMetadata {
    MemoryMetadata {
        path: format!("/m/{}.md", name),
        frontmatter: MemoryFrontmatter { name: name.to_string(), description: format!("about {}", name), memory_type: t },
        modified_at: ts(secs, 0),
    }
}

const STALE: &str = " days old. Memories are point-in-time observations, not live state... Verify against current code before asserting as fact.\n</system-reminder>";

#[test]
fn manifest_line_shows_type_name() {
    let m = memory("goals", MemoryType::Project, 0);
    assert_eq!(m.to_manifest_line(), "- [goals](/m/goals.md) - Type: Project - about goals");
    assert_eq!(MemoryType::Feedback.display_name(), "Feedback");
    assert_eq!(MemoryType::Reference.display_name(), "Reference");
}

#[test]
fn whole_days_round_toward_zero() {
    assert_eq!(days_from_to(ts(0, 0), ts(3 * 86400, 0)), 3);
    assert_eq!(days_from_to(ts(0, 0), ts(86399, 999_999_999)), 0);
    assert_eq!(days_from_to(ts(0, 500_000_000), ts(86400, 0)), 0);
    assert_eq!(days_from_to(ts(2 * 86400 + 5, 0), ts(0, 0)), -2);
    assert_eq!(days_from_to(ts(86400, 0), ts(0, 500_000_000)), 0);
    assert_eq!(days_from_to(ts(i64::MIN, 0), ts(i64::MAX, 0)), 213503982334601);
}

#[test]
fn whole_days_agree_with_chrono() {
    let pairs = [((0i64, 0u32), (3 * 86400 + 7, 5u32)), ((1_000_000, 700_000_000), (10, 900_000_000)), ((5, 1), (5, 0))];
    for ((a, an), (b, bn)) in pairs {
        let then: DateTime<Utc> = DateTime::from_timestamp(a, an).unwrap();
        let now: DateTime<Utc> = DateTime::from_timestamp(b, bn).unwrap();
        assert_eq!(days_from_to(ts(a, an), ts(b, bn)), now.signed_duration_since(then).num_days());
    }
}

#[test]
fn age_reminder_only_when_older_than_a_day() {
    assert_eq!(age_warning_for(1), None);
    assert_eq!(age_warning_for(-3), None);
    assert_eq!(age_warning_for(5), Some(format!("<system-reminder>\nThis memory is 5{}", STALE)));
    let m = memory("x", MemoryType::User, 0);
    assert_eq!(m.age_in_days_at(ts(10 * 86400, 0)), 10);
    assert_eq!(m.age_warning_at(ts(86400, 0)), None);
}

#[test]
fn clock_reading_is_plausible() {
    let since_epoch = std::time::SystemTime::now().duration_since(std::time::UNIX_EPOCH).unwrap();
    let now = Timestamp { secs: since_epoch.as_secs() as i64, nanos: since_epoch.subsec_nanos() };
    let three_days_ago = Timestamp { secs: now.secs - 3 * 86_400 - 60, nanos: 0 };
    assert_eq!(days_since(three_days_ago), Ok(3));
    assert_eq!(days_since(now), Ok(0));
    let fresh = MemoryMetadata { modified_at: now, ..memory("f", MemoryType::User, 0) };
    assert_eq!(fresh.age_in_days(), Ok(0));
    assert_eq!(fresh.age_warning(), Ok(None));
    let old = memory("o", MemoryType::User, 0);
    assert!(old.age_in_days().unwrap() > 18000);
    assert!(old.age_warning().unwrap().is_some());
}

#[test]
fn header_block_is_found() {
    let contents = vec![
        "no header\n---\nname: z\n---".to_string(),
        "---\nname: x\n---\nbody".to_string(),
        "---\nname: z".to_string(),
        "---  \n\nname: y\ntype: user\n---".to_string(),
    ];
    assert_eq!(
        memory_headers(&contents),
        vec![(1, "name: x".to_string()), (3, "name: y\ntype: user".to_string())]
    );
    assert_eq!(memory_headers(&vec![]), vec![]);
}

#[test]
fn newest_first_and_stable() {
    let found = vec![
        memory("a", MemoryType::User, 30),
        memory("b", MemoryType::User, 10),
        memory("c", MemoryType::User, 20),
        memory("d", MemoryType::User, 30),
    ];
    let names = |v: &Vec<MemoryMetadata>| v.iter().map(|m| m.frontmatter.name.clone()).collect::<Vec<_>>();
    let all = select_recent(found, 10);
    assert_eq!(names(&all), vec!["a", "d", "c", "b"]);
    let two = select_recent(all, 2);
    assert_eq!(names(&two), vec!["a", "d"]);
    assert!(select_recent(two, 0).is_empty());
}

#[test]
fn manifest_lists_memories() {
    let s = MemoryScanner::new("/m".to_string());
    assert_eq!(s.base_dir, "/m");
    assert_eq!(s.generate_manifest(&vec![]), Ok("No memories found.".to_string()));
    let mems = vec![memory("a", MemoryType::User, 2), memory("b", MemoryType::Reference, 1)];
    assert_eq!(
        s.generate_manifest(&mems),
        Ok("Available Context & Memory Files:\n- [a](/m/a.md) - Type: User - about a\n- [b](/m/b.md) - Type: Reference - about b\n".to_string())
    );
}

#[test]
fn picked_paths_are_trimmed_and_limited() {
    assert_eq!(paths_from_text(" a.md, ,b.md ,c.md", 2), vec!["a.md", "b.md"]);
    assert_eq!(paths_from_text("", 5), Vec::<String>::new());
    assert_eq!(paths_from_text("x.md", 5), vec!["x.md"]);
    let r = MemoryRetriever::new("/m".to_string(), Client::new("k".to_string()));
    let blocks = vec![
        ContentBlock::Text { text: "a.md, b.md, c.md".to_string() },
        ContentBlock::Text { text: "d.md".to_string() },
    ];
    assert_eq!(r.paths_from_reply(&blocks, 2), vec!["a.md", "b.md"]);
    assert_eq!(r.paths_from_reply(&blocks, 4), vec!["a.md", "b.md", "c.md", "d.md"]);
    assert_eq!(r.paths_from_reply(&blocks, 3), vec!["a.md", "b.md", "c.md"]);
}

#[test]
fn side_query_needs_memories() {
    let r = MemoryRetriever::new("/m".to_string(), Client::new("k".to_string()));
    assert_eq!(r.side_query_prompt("q", "No memories found.", 3), None);
    assert_eq!(
        r.side_query_prompt("fix login", "Available Context & Memory Files:\n", 3),
        Some("User Query:\nfix login\n\nMemory Manifest:\nAvailable Context & Memory Files:\n\n\nSelect up to 3 relevant memory files.".to_string())
    );
}

#[test]
fn picked_memory_is_shown_with_its_age() {
    assert_eq!(format_memory_entry("p.md", "content", Some(1)), "--- Memory: p.md ---\ncontent\n");
    assert_eq!(format_memory_entry("p.md", "content", None), "--- Memory: p.md ---\ncontent\n");
    assert_eq!(
        format_memory_entry("p.md", "c", Some(4)),
        format!("--- Memory: p.md ---\nc\n<system-reminder>\nThis memory is 4{}\n", STALE)
    );
}
