use pokebot::master::{
    connection_log_flags, default_local, default_name, default_verbose, on_message, Args,
    BotCreationError, ChatEvent, MasterAction, MasterArgs, MasterBot, MasterConfig,
};
use rand::rngs::SmallRng;
use rand::SeedableRng;

fn config(local: bool) -> MasterConfig<f64> {
    MasterConfig {
        master_name: String::from("PokeBot"),
        music_root: None,
        local,
        address: String::from("localhost"),
        verbose: 0,
        volume: 0.5,
    }
}

fn bot(local: bool, names: &[&str], ids: &[u32]) -> MasterBot<u32, f64, &'static str> {
    MasterBot::new(
        config(local),
        names.iter().map(|n| n.to_string()).collect(),
        ids.to_vec(),
        SmallRng::seed_from_u64(7),
    )
}

fn sorted<T: Ord + Clone>(v: &[T]) -> Vec<T> {
    let mut v = v.to_vec();
    v.sort();
    v
}

#[test]
fn creation_error_messages() {
    assert_eq!(
        BotCreationError::UnfoundUser.message(),
        "I can't find you in the channel list, either I am not subscribed to your channel or this is a bug."
    );
    assert_eq!(
        BotCreationError::MasterChannel(String::from("PokeBot")).message(),
        "Joining the channel of \"PokeBot\" is not allowed"
    );
    assert_eq!(
        BotCreationError::MultipleBots(String::from("Bob")).message(),
        "\"Bob\" is already in this channel. Multiple bots in one channel are not allowed."
    );
    assert_eq!(
        BotCreationError::OutOfNames.message(),
        "Out of names. Too many bots are already connected!"
    );
    assert_eq!(
        BotCreationError::OutOfIdentities.message(),
        "Out of identities. Too many bots are already connected!"
    );
}

#[test]
fn defaults() {
    assert_eq!(default_name(), "PokeBot");
    assert_eq!(default_verbose(), 0);
    assert!(!default_local());
}

fn file_args() -> MasterArgs<u32, f64> {
    MasterArgs {
        master_name: String::from("PokeBot"),
        music_root: Some(String::from("/music")),
        local: false,
        address: String::from("ts.example.org"),
        channel: Some(String::from("Lobby")),
        volume: 0.4,
        verbose: 1,
        bind_address: String::from("0.0.0.0:8000"),
        webserver_enable: true,
        names: vec![String::from("A"), String::from("B")],
        id: Some(9),
        ids: Some(vec![1, 2]),
    }
}

#[test]
fn merge_prefers_command_line() {
    let cli = Args {
        local: true,
        address: Some(String::from("other.example.org")),
        master_channel: Some(String::from("Music")),
        verbose: 3,
    };
    let m = file_args().merge(cli);
    assert!(m.local);
    assert_eq!(m.address, "other.example.org");
    assert_eq!(m.channel, Some(String::from("Music")));
    assert_eq!(m.verbose, 3);
    assert_eq!(m.master_name, "PokeBot");
    assert_eq!(m.volume, 0.4);
    assert_eq!(m.bind_address, "0.0.0.0:8000");
    assert_eq!(m.ids, Some(vec![1, 2]));
}

#[test]
fn merge_with_empty_command_line_keeps_file() {
    let cli = Args { local: false, address: None, master_channel: None, verbose: 0 };
    let m = file_args().merge(cli);
    assert!(!m.local);
    assert_eq!(m.address, "ts.example.org");
    assert_eq!(m.channel, Some(String::from("Lobby")));
    assert_eq!(m.verbose, 1);
}

#[test]
fn merge_twice_is_merge_once() {
    let cli = Args { local: false, address: Some(String::from("x")), master_channel: None, verbose: 0 };
    let once = file_args().merge(cli.clone());
    let twice = file_args().merge(cli.clone()).merge(cli);
    assert_eq!(once.address, twice.address);
    assert_eq!(once.channel, twice.channel);
    assert_eq!(once.verbose, twice.verbose);
    assert_eq!(once.local, twice.local);
}

#[test]
fn config_from_args() {
    let c = MasterConfig::from_args(&file_args());
    assert_eq!(c.master_name, "PokeBot");
    assert_eq!(c.music_root, Some(String::from("/music")));
    assert!(!c.local);
    assert_eq!(c.address, "ts.example.org");
    assert_eq!(c.verbose, 1);
    assert_eq!(c.volume, 0.4);
}

#[test]
fn log_flags_by_verbosity() {
    assert_eq!(connection_log_flags(0), (false, false, false));
    assert_eq!(connection_log_flags(1), (true, false, false));
    assert_eq!(connection_log_flags(2), (true, true, false));
    assert_eq!(connection_log_flags(3), (true, true, true));
    assert_eq!(connection_log_flags(200), (true, true, true));
}

#[test]
fn allocation_draws_from_pools() {
    let mut m = bot(false, &["A", "B", "C"], &[10, 20]);
    let (name, id) = m.allocate_bot().unwrap();
    assert!(["A", "B", "C"].contains(&name.as_str()));
    assert!(id == 10 || id == 20);
    let (name2, id2) = m.allocate_bot().unwrap();
    assert_ne!(name, name2);
    assert_ne!(id, id2);
    // Out of identities: a name is drawn and not given back.
    assert_eq!(m.allocate_bot(), Err(BotCreationError::OutOfIdentities));
    assert_eq!(m.allocate_bot(), Err(BotCreationError::OutOfNames));
}

#[test]
fn out_of_names_first() {
    let mut m = bot(false, &[], &[]);
    assert_eq!(m.allocate_bot(), Err(BotCreationError::OutOfNames));
}

#[test]
fn disconnect_returns_what_was_allocated() {
    let mut m = bot(false, &["A", "B", "C"], &[10, 20, 30]);
    let (name, id) = m.allocate_bot().unwrap();
    m.insert_bot(name.clone(), "handle");
    assert_eq!(m.bot_names(), vec![name.clone()]);
    m.on_bot_disconnect(name, id);
    assert!(m.bot_names().is_empty());
    // All three names and identities are free again.
    let mut names = Vec::new();
    let mut ids = Vec::new();
    for _ in 0..3 {
        let (n, i) = m.allocate_bot().unwrap();
        names.push(n);
        ids.push(i);
    }
    assert_eq!(sorted(&names), vec!["A", "B", "C"]);
    assert_eq!(sorted(&ids), vec![10, 20, 30]);
}

#[test]
fn insert_replaces_handle_of_same_name() {
    let mut m = bot(false, &[], &[]);
    m.insert_bot(String::from("A"), "one");
    m.insert_bot(String::from("B"), "two");
    m.insert_bot(String::from("A"), "three");
    assert_eq!(m.bot_names(), vec!["A", "B"]);
    assert_eq!(m.bot_count(), 2);
    assert_eq!(*m.bot_at(0), "three");
    assert_eq!(*m.bot_at(1), "two");
}

#[test]
fn disconnect_of_unknown_bot_still_frees_name() {
    let mut m = bot(false, &[], &[]);
    m.insert_bot(String::from("A"), "one");
    m.on_bot_disconnect(String::from("Z"), 5);
    assert_eq!(m.bot_names(), vec!["A"]);
    assert_eq!(m.allocate_bot(), Ok((String::from("Z"), 5)));
}

#[test]
fn request_checks() {
    let mut m = bot(false, &[], &[]);
    m.insert_bot(String::from("A"), "a");
    m.insert_bot(String::from("B"), "b");
    let channels = vec![Some(3), Some(4)];
    assert_eq!(m.check_bot_request(None, Some(1), &channels), Err(BotCreationError::UnfoundUser));
    assert_eq!(
        m.check_bot_request(Some(1), Some(1), &channels),
        Err(BotCreationError::MasterChannel(String::from("PokeBot")))
    );
    assert_eq!(
        m.check_bot_request(Some(4), Some(1), &channels),
        Err(BotCreationError::MultipleBots(String::from("B")))
    );
    assert_eq!(m.check_bot_request(Some(5), Some(1), &channels), Ok(5));
    assert_eq!(m.check_bot_request(Some(5), None, &vec![None, None]), Ok(5));
}

#[test]
fn first_bot_in_channel_is_found() {
    let mut m = bot(false, &[], &[]);
    m.insert_bot(String::from("A"), "a");
    m.insert_bot(String::from("B"), "b");
    m.insert_bot(String::from("C"), "c");
    let channels = vec![Some(1), Some(2), Some(2)];
    assert_eq!(m.bot_by_channel(2, &channels), Some(&"b"));
    assert_eq!(m.bot_by_channel(9, &channels), None);
}

#[test]
fn local_mode_uses_first_bot() {
    let mut m = bot(true, &["L"], &[1]);
    assert_eq!(m.bot_by_channel(2, &vec![]), None);
    m.insert_bot(String::from("L"), "local");
    assert_eq!(m.bot_by_channel(2, &vec![]), Some(&"local"));
    assert!(m.is_local());
    assert_eq!(m.local_uid(), Some(String::from("local")));
    assert_eq!(m.local_bot_seed(), Some((String::from("L"), &1)));
}

#[test]
fn remote_mode_has_no_local_shortcuts() {
    let m = bot(false, &["L"], &[1]);
    assert!(!m.is_local());
    assert_eq!(m.local_uid(), None);
    assert_eq!(m.local_bot_seed(), None);
}

#[test]
fn chat_events() {
    match on_message(ChatEvent::Poke { user: 4 }) {
        MasterAction::SpawnBotFor { user } => assert_eq!(user, 4),
        other => panic!("unexpected {:?}", other),
    }
    match on_message(ChatEvent::ClientText {
        text: String::from("auth"),
        invoker: 6,
        invoker_uid: Some(String::from("uid=")),
    }) {
        MasterAction::SendWebToken { client, uid, token } => {
            assert_eq!(client, 6);
            assert_eq!(uid, "uid=");
            let token = token.unwrap();
            assert_eq!(token.split('-').count(), 5);
            assert!(token.split('-').all(|w| !w.is_empty() && w.chars().all(|c| c.is_ascii_lowercase())));
        },
        other => panic!("unexpected {:?}", other),
    }
    assert!(matches!(
        on_message(ChatEvent::ClientText { text: String::from("hello"), invoker: 6, invoker_uid: None }),
        MasterAction::Ignore
    ));
    match on_message(ChatEvent::ClientAdded { client: 2, own_id: 2 }) {
        MasterAction::SetDescription { text } => assert_eq!(text, "Poke me if you want a music bot!"),
        other => panic!("unexpected {:?}", other),
    }
    assert!(matches!(on_message(ChatEvent::ClientAdded { client: 2, own_id: 3 }), MasterAction::Ignore));
    assert!(matches!(on_message(ChatEvent::Other), MasterAction::Ignore));
}

#[test]
fn names_are_drawn_at_random() {
    let names = ["A", "B", "C", "D", "E", "F", "G", "H", "I", "J"];
    let mut firsts = std::collections::BTreeSet::new();
    for seed in 0..20 {
        let mut m: MasterBot<u32, f64, &'static str> = MasterBot::new(
            config(false),
            names.iter().map(|n| n.to_string()).collect(),
            vec![1],
            SmallRng::seed_from_u64(seed),
        );
        let (name, _) = m.allocate_bot().unwrap();
        firsts.insert(name);
    }
    assert!(firsts.len() > 1);
}
