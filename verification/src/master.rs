use vstd::prelude::*;

verus! {

/// The random number generator the master bot draws names and identities
/// with.
#[verifier::external_type_specification]
#[verifier::external_body]
pub struct ExSmallRng(rand::rngs::SmallRng);

/// Calls `rand::seq::SliceRandom::shuffle` on the vector. Its source is the
/// Fisher-Yates shuffle, a series of swaps: the vector comes back as a
/// permutation of what it held. Which permutation depends on the generator,
/// so nothing more is stated.
#[verifier::external_body]
fn shuffle<T>(v: &mut Vec<T>, rng: &mut rand::rngs::SmallRng)
    ensures
        final(v)@.len() == old(v)@.len(),
        final(v)@.to_multiset() == old(v)@.to_multiset(),
{
    rand::seq::SliceRandom::shuffle(v.as_mut_slice(), rng)
}

/// The parts joined with `separator` between each two.
pub open spec fn joined_with(parts: Seq<Seq<char>>, separator: Seq<char>) -> Seq<char>
    decreases parts.len(),
{
    if parts.len() == 0 {
        Seq::empty()
    } else if parts.len() == 1 {
        parts[0]
    } else {
        joined_with(parts.drop_last(), separator) + separator + parts.last()
    }
}

/// `words` words of the default petname lists: each one a non-empty run of
/// lowercase ASCII letters.
pub open spec fn petname_words(ws: Seq<Seq<char>>, words: nat) -> bool {
    &&& ws.len() == words
    &&& forall|i: int|
        0 <= i < ws.len() ==> (#[trigger] ws[i]).len() > 0 && forall|j: int|
            0 <= j < ws[i].len() ==> 'a' <= #[trigger] ws[i][j] <= 'z'
}

/// Calls `petname::petname`, the generator over the default word lists. Its
/// source draws `words` words at random (adverbs, then an adjective, then a
/// noun) from lists whose entries are non-empty runs of lowercase letters,
/// joins them with `separator`, and returns `None` only when the result is
/// empty, which for at least one word it is not. Which words are drawn is
/// random.
#[verifier::external_body]
fn petname(words: u8, separator: &str) -> (name: Option<String>)
    ensures
        words > 0 ==> name is Some,
        name matches Some(n) ==> exists|ws: Seq<Seq<char>>|
            petname_words(ws, words as nat) && n@ == joined_with(ws, separator@),
{
    petname::petname(words, separator)
}

/// A web login token: five words of the petname lists joined by `-`.
pub open spec fn is_web_token(t: Seq<char>) -> bool {
    exists|ws: Seq<Seq<char>>| petname_words(ws, 5) && t == joined_with(ws, "-"@)
}

/// Why the master bot refuses to create a music bot for a user.
#[derive(Debug, Clone, PartialEq, Eq)]
pub enum BotCreationError {
    UnfoundUser,
    MasterChannel(String),
    MultipleBots(String),
    OutOfNames,
    OutOfIdentities,
}

impl BotCreationError {
    /// The text sent back to the user for this refusal.
    pub open spec fn message_spec(&self) -> Seq<char> {
        match self {
            BotCreationError::UnfoundUser => "I can't find you in the channel list, either I am not subscribed to your channel or this is a bug."@,
            BotCreationError::MasterChannel(name) => "Joining the channel of \""@ + name@
                + "\" is not allowed"@,
            BotCreationError::MultipleBots(name) => "\""@ + name@
                + "\" is already in this channel. Multiple bots in one channel are not allowed."@,
            BotCreationError::OutOfNames => "Out of names. Too many bots are already connected!"@,
            BotCreationError::OutOfIdentities => "Out of identities. Too many bots are already connected!"@,
        }
    }

    /// The text sent back to the user for this refusal.
    pub fn message(&self) -> (m: String)
        ensures
            m@ == self.message_spec(),
    {
        match self {
            BotCreationError::UnfoundUser => String::from_str(
                "I can't find you in the channel list, either I am not subscribed to your channel or this is a bug.",
            ),
            BotCreationError::MasterChannel(name) => {
                let mut m = String::from_str("Joining the channel of \"");
                m.append(name.as_str());
                m.append("\" is not allowed");
                m
            },
            BotCreationError::MultipleBots(name) => {
                let mut m = String::from_str("\"");
                m.append(name.as_str());
                m.append("\" is already in this channel. Multiple bots in one channel are not allowed.");
                m
            },
            BotCreationError::OutOfNames => String::from_str(
                "Out of names. Too many bots are already connected!",
            ),
            BotCreationError::OutOfIdentities => String::from_str(
                "Out of identities. Too many bots are already connected!",
            ),
        }
    }
}

/// The name the master bot uses when the configuration names none.
pub fn default_name() -> (name: String)
    ensures
        name@ == "PokeBot"@,
{
    String::from_str("PokeBot")
}

/// The verbosity when the configuration sets none.
pub fn default_verbose() -> (v: u8)
    ensures
        v == 0,
{
    0
}

/// Whether to run in local mode when the configuration does not say.
pub fn default_local() -> (local: bool)
    ensures
        !local,
{
    false
}

/// The options given on the command line that override the configuration
/// file.
#[derive(Debug, Clone)]
pub struct Args {
    pub local: bool,
    pub address: Option<String>,
    pub master_channel: Option<String>,
    pub verbose: u8,
}

/// The settings of the master bot as read from the configuration file.
/// `I` is the type of a TeamSpeak identity and `V` that of a volume.
#[derive(Debug, Clone)]
pub struct MasterArgs<I, V> {
    pub master_name: String,
    pub music_root: Option<String>,
    pub local: bool,
    pub address: String,
    pub channel: Option<String>,
    pub volume: V,
    pub verbose: u8,
    pub bind_address: String,
    pub webserver_enable: bool,
    pub names: Vec<String>,
    pub id: Option<I>,
    pub ids: Option<Vec<I>>,
}

/// What `merge` makes of `file` and the command line `cli`: local mode if
/// either asks for it, the command line's address, channel and (non-zero)
/// verbosity where it gives them, everything else from the file.
pub open spec fn merged<I, V>(file: MasterArgs<I, V>, cli: Args) -> MasterArgs<I, V> {
    MasterArgs {
        local: cli.local || file.local,
        address: match cli.address {
            Some(a) => a,
            None => file.address,
        },
        channel: match cli.master_channel {
            Some(c) => Some(c),
            None => file.channel,
        },
        verbose: if cli.verbose > 0 {
            cli.verbose
        } else {
            file.verbose
        },
        ..file
    }
}

impl<I, V> MasterArgs<I, V> {
    /// Lays the command line over the configuration file.
    pub fn merge(self, args: Args) -> (r: Self)
        ensures
            r == merged(self, args),
            r.local == (args.local || self.local),
            args.address matches Some(a) ==> r.address == a,
            args.address is None ==> r.address == self.address,
            args.master_channel matches Some(c) ==> r.channel == Some(c),
            args.master_channel is None ==> r.channel == self.channel,
            args.verbose > 0 ==> r.verbose == args.verbose,
            args.verbose == 0 ==> r.verbose == self.verbose,
            r.master_name == self.master_name,
            r.music_root == self.music_root,
            r.volume == self.volume,
            r.bind_address == self.bind_address,
            r.webserver_enable == self.webserver_enable,
            r.names == self.names,
            r.id == self.id,
            r.ids == self.ids,
    {
        let local = args.local || self.local;
        let address = match args.address {
            Some(a) => a,
            None => self.address,
        };
        let channel = match args.master_channel {
            Some(c) => Some(c),
            None => self.channel,
        };
        let verbose: u8 = if args.verbose > 0 {
            args.verbose
        } else {
            self.verbose
        };
        MasterArgs {
            master_name: self.master_name,
            music_root: self.music_root,
            names: self.names,
            ids: self.ids,
            local,
            address,
            bind_address: self.bind_address,
            webserver_enable: self.webserver_enable,
            id: self.id,
            channel,
            verbose,
            volume: self.volume,
        }
    }
}

/// What the command line gives wins over the configuration file, whatever the
/// file holds: its address, its master channel and a non-zero verbosity are
/// taken, local mode is on if either asks for it, and every other setting
/// is the file's.
pub proof fn lemma_command_line_wins<I, V>(file: MasterArgs<I, V>, cli: Args)
    ensures
        merged(file, cli).local == (cli.local || file.local),
        cli.address matches Some(a) ==> merged(file, cli).address == a,
        cli.address is None ==> merged(file, cli).address == file.address,
        cli.master_channel matches Some(c) ==> merged(file, cli).channel == Some(c),
        cli.master_channel is None ==> merged(file, cli).channel == file.channel,
        cli.verbose > 0 ==> merged(file, cli).verbose == cli.verbose,
        cli.verbose == 0 ==> merged(file, cli).verbose == file.verbose,
        merged(file, cli).master_name == file.master_name,
        merged(file, cli).music_root == file.music_root,
        merged(file, cli).volume == file.volume,
        merged(file, cli).bind_address == file.bind_address,
        merged(file, cli).webserver_enable == file.webserver_enable,
        merged(file, cli).names == file.names,
        merged(file, cli).id == file.id,
        merged(file, cli).ids == file.ids,
{
}

/// A command line that overrides nothing leaves the configuration as it is.
pub proof fn lemma_merge_empty_is_identity<I, V>(file: MasterArgs<I, V>, cli: Args)
    requires
        !cli.local,
        cli.address is None,
        cli.master_channel is None,
        cli.verbose == 0,
    ensures
        merged(file, cli) == file,
{
}

/// Laying the same command line over the configuration twice is the same as
/// doing it once.
pub proof fn lemma_merge_idempotent<I, V>(file: MasterArgs<I, V>, cli: Args)
    ensures
        merged(merged(file, cli), cli) == merged(file, cli),
{
}

/// The settings the master bot keeps while it runs.
#[derive(Debug, Clone)]
pub struct MasterConfig<V> {
    pub master_name: String,
    pub music_root: Option<String>,
    pub local: bool,
    pub address: String,
    pub verbose: u8,
    pub volume: V,
}

impl<V: Copy> MasterConfig<V> {
    /// The running settings taken from the configuration.
    pub fn from_args<I>(args: &MasterArgs<I, V>) -> (c: Self)
        ensures
            c.master_name == args.master_name,
            c.music_root == args.music_root,
            c.local == args.local,
            c.address == args.address,
            c.verbose == args.verbose,
            c.volume == args.volume,
    {
        MasterConfig {
            master_name: args.master_name.clone(),
            music_root: match &args.music_root {
                Some(r) => Some(r.clone()),
                None => None,
            },
            local: args.local,
            address: args.address.clone(),
            verbose: args.verbose,
            volume: args.volume,
        }
    }
}

/// Which parts of the TeamSpeak traffic the master's connection logs at a
/// verbosity: commands from 1, packets from 2, UDP packets from 3.
pub fn connection_log_flags(verbose: u8) -> (flags: (bool, bool, bool))
    ensures
        flags == (verbose >= 1, verbose >= 2, verbose >= 3),
{
    (verbose >= 1, verbose >= 2, verbose >= 3)
}

/// The first of the connected bots whose channel, as the bots reported it,
/// is `channel`: `i` is that bot's position in `channels`.
pub open spec fn first_in_channel(channels: Seq<Option<u64>>, channel: u64, i: int) -> bool {
    &&& 0 <= i < channels.len()
    &&& channels[i] == Some(channel)
    &&& forall|j: int| 0 <= j < i ==> channels[j] != Some(channel)
}

/// Whether any of the reported channels is `channel`.
pub open spec fn any_in_channel(channels: Seq<Option<u64>>, channel: u64) -> bool {
    exists|i: int| 0 <= i < channels.len() && channels[i] == Some(channel)
}

/// The music bots connected to the master, each under its name, in the order
/// they came. No two share a name.
struct ConnectedBots<B> {
    list: Vec<(String, B)>,
}

impl<B> ConnectedBots<B> {
    /// The names of the bots, in order.
    spec fn names(&self) -> Seq<Seq<char>> {
        self.list@.map_values(|e: (String, B)| e.0@)
    }

    /// No two connected bots share a name.
    #[verifier::type_invariant]
    spec fn unique_names(&self) -> bool {
        self.names().no_duplicates()
    }

    /// No bot connected.
    fn empty() -> (c: Self)
        ensures
            c.list@ == Seq::<(String, B)>::empty(),
    {
        let c = ConnectedBots { list: Vec::new() };
        assert(c.names() =~= Seq::<Seq<char>>::empty());
        c
    }

    /// The position of the bot named `name`, if one is connected.
    fn position_of(&self, name: &String) -> (r: Option<usize>)
        ensures
            r matches Some(i) ==> i < self.list@.len() && self.names().contains(name@) && i
                == self.names().index_of(name@),
            r is None ==> !self.names().contains(name@),
    {
        proof {
            use_type_invariant(self);
        }
        let n: usize = self.list.len();
        for i in 0..n
            invariant
                n == self.list@.len(),
                self.names().no_duplicates(),
                forall|j: int| 0 <= j < i ==> self.names()[j] != name@,
        {
            if self.list[i].0 == *name {
                assert(self.names()[i as int] == name@);
                assert(self.names().contains(name@));
                let ghost k: int = self.names().index_of(name@);
                assert(self.names()[k] == name@);
                assert(k == i as int) by {
                    if k != i as int {
                        assert(self.names()[k] == self.names()[i as int]);
                    }
                }
                return Some(i);
            }
        }
        None
    }

    /// The bot `name` connected with handle `bot`: a bot of that name gets
    /// the new handle, else the bot is added at the end.
    fn insert(&mut self, name: String, bot: B)
        ensures
            final(self).list@ == if old(self).names().contains(name@) {
                old(self).list@.update(old(self).names().index_of(name@), (name, bot))
            } else {
                old(self).list@.push((name, bot))
            },
    {
        proof {
            use_type_invariant(&*self);
        }
        let ghost names0 = self.names();
        let ghost name_view = name@;
        let pos = self.position_of(&name);
        let mut list: Vec<(String, B)> = Vec::new();
        std::mem::swap(&mut list, &mut self.list);
        match pos {
            Some(i) => {
                list.set(i, (name, bot));
                assert(list@.map_values(|e: (String, B)| e.0@) =~= names0.update(i as int, name_view));
            },
            None => {
                list.push((name, bot));
                assert(list@.map_values(|e: (String, B)| e.0@) =~= names0.push(name_view));
            },
        }
        self.list = list;
    }

    /// The bot named `name` left, if it was connected.
    fn remove(&mut self, name: &String)
        ensures
            final(self).list@ == if old(self).names().contains(name@) {
                old(self).list@.remove(old(self).names().index_of(name@))
            } else {
                old(self).list@
            },
    {
        proof {
            use_type_invariant(&*self);
        }
        let ghost names0 = self.names();
        if let Some(i) = self.position_of(name) {
            let mut list: Vec<(String, B)> = Vec::new();
            std::mem::swap(&mut list, &mut self.list);
            let _ = list.remove(i);
            assert(list@.map_values(|e: (String, B)| e.0@) =~= names0.remove(i as int));
            self.list = list;
        }
    }
}

/// The bookkeeping of the master bot: the names and identities still free
/// for new music bots, and the music bots that are connected, each under its
/// name. `I` is the type of an identity, `V` that of a volume and `B` that of
/// a handle to a connected bot.
pub struct MasterBot<I, V, B> {
    config: MasterConfig<V>,
    available_names: Vec<String>,
    available_ids: Vec<I>,
    connected: ConnectedBots<B>,
    rng: rand::rngs::SmallRng,
}

impl<I, V, B> MasterBot<I, V, B> {
    /// The running settings.
    pub closed spec fn config(&self) -> MasterConfig<V> {
        self.config
    }

    /// The names free for new music bots.
    pub closed spec fn name_pool(&self) -> Seq<String> {
        self.available_names@
    }

    /// The identities free for new music bots.
    pub closed spec fn id_pool(&self) -> Seq<I> {
        self.available_ids@
    }

    /// The connected music bots with their names, in the order they came.
    pub closed spec fn bots(&self) -> Seq<(String, B)> {
        self.connected.list@
    }

    /// The names of the connected music bots.
    pub open spec fn bot_name_seq(&self) -> Seq<Seq<char>> {
        self.bots().map_values(|e: (String, B)| e.0@)
    }

    /// No two connected bots share a name; every master bot keeps this.
    pub open spec fn wf(&self) -> bool {
        self.bot_name_seq().no_duplicates()
    }

    /// The connected bots after a bot named `name` connected with handle
    /// `bot`: a bot of that name gets the new handle, else the bot is added.
    pub open spec fn bots_after_insert(&self, name: String, bot: B) -> Seq<(String, B)> {
        if self.bot_name_seq().contains(name@) {
            self.bots().update(self.bot_name_seq().index_of(name@), (name, bot))
        } else {
            self.bots().push((name, bot))
        }
    }

    /// The connected bots after the bot named `name` left.
    pub open spec fn bots_after_remove(&self, name: Seq<char>) -> Seq<(String, B)> {
        if self.bot_name_seq().contains(name) {
            self.bots().remove(self.bot_name_seq().index_of(name))
        } else {
            self.bots()
        }
    }

    /// A master bot with the given settings, free names and identities, and
    /// no bot connected.
    pub fn new(
        config: MasterConfig<V>,
        names: Vec<String>,
        ids: Vec<I>,
        rng: rand::rngs::SmallRng,
    ) -> (m: Self)
        ensures
            m.wf(),
            m.config() == config,
            m.name_pool() == names@,
            m.id_pool() == ids@,
            m.bots() == Seq::<(String, B)>::empty(),
    {
        let m = MasterBot {
            config,
            available_names: names,
            available_ids: ids,
            connected: ConnectedBots::empty(),
            rng,
        };
        assert(m.bot_name_seq() =~= Seq::<Seq<char>>::empty());
        m
    }

    /// Whether the master runs in local mode, without a TeamSpeak server.
    pub fn is_local(&self) -> (local: bool)
        ensures
            local == self.config().local,
    {
        self.config.local
    }

    /// The running settings.
    pub fn config_ref(&self) -> (c: &MasterConfig<V>)
        ensures
            *c == self.config(),
    {
        &self.config
    }

    /// The number of connected music bots.
    pub fn bot_count(&self) -> (n: usize)
        ensures
            n == self.bots().len(),
    {
        self.connected.list.len()
    }

    /// The handle of the connected bot at position `i`.
    pub fn bot_at(&self, i: usize) -> (b: &B)
        requires
            i < self.bots().len(),
        ensures
            *b == self.bots()[i as int].1,
    {
        &self.connected.list[i].1
    }

    /// The names of the connected music bots.
    pub fn bot_names(&self) -> (names: Vec<String>)
        ensures
            names@.map_values(|n: String| n@) == self.bot_name_seq(),
    {
        let mut names: Vec<String> = Vec::new();
        let n: usize = self.connected.list.len();
        for i in 0..n
            invariant
                n == self.connected.list@.len(),
                names@.len() == i,
                forall|j: int| 0 <= j < i ==> names@[j]@ == self.connected.list@[j].0@,
        {
            names.push(self.connected.list[i].0.clone());
        }
        assert(names@.map_values(|n: String| n@) =~= self.bot_name_seq());
        names
    }

    /// What the pool of free names or identities `after` is, taken from
    /// `before`, once `taken` has been handed out.
    pub open spec fn handed_out<T>(before: Seq<T>, after: Seq<T>, taken: T) -> bool {
        &&& before.contains(taken)
        &&& after.to_multiset() == before.to_multiset().remove(taken)
    }

    /// Checks a user's request for a music bot against the channels involved:
    /// `user_channel` is the channel the user is in (if the master can see
    /// them), `master_channel` the master's own channel, and `bot_channels`
    /// the channel each connected bot reported, in the order of `bots()`.
    /// Gives the channel to join when the request is allowed.
    pub fn check_bot_request(
        &self,
        user_channel: Option<u64>,
        master_channel: Option<u64>,
        bot_channels: &Vec<Option<u64>>,
    ) -> (r: Result<u64, BotCreationError>)
        requires
            bot_channels@.len() == self.bots().len(),
        ensures
            match user_channel {
                None => r == Err::<u64, BotCreationError>(BotCreationError::UnfoundUser),
                Some(c) => if master_channel == Some(c) {
                    r matches Err(BotCreationError::MasterChannel(name)) && name@
                        == self.config().master_name@
                } else if any_in_channel(bot_channels@, c) {
                    r matches Err(BotCreationError::MultipleBots(name)) && exists|i: int|
                        first_in_channel(bot_channels@, c, i) && name@ == self.bot_name_seq()[i]
                } else {
                    r == Ok::<u64, BotCreationError>(c)
                },
            },
    {
        let channel = match user_channel {
            Some(c) => c,
            None => return Err(BotCreationError::UnfoundUser),
        };
        if master_channel == Some(channel) {
            return Err(BotCreationError::MasterChannel(self.config.master_name.clone()));
        }
        let n: usize = bot_channels.len();
        for i in 0..n
            invariant
                n == bot_channels@.len(),
                n == self.connected.list@.len(),
                user_channel == Some(channel),
                master_channel != Some(channel),
                forall|j: int| 0 <= j < i ==> bot_channels@[j] != Some(channel),
        {
            if bot_channels[i] == Some(channel) {
                let name = self.connected.list[i].0.clone();
                assert(first_in_channel(bot_channels@, channel, i as int));
                assert(name@ == self.bot_name_seq()[i as int]);
                return Err(BotCreationError::MultipleBots(name));
            }
        }
        Ok(channel)
    }

    /// Draws a name and an identity for a new music bot at random from the
    /// free ones. With no name free the request fails and nothing changes;
    /// with a name but no identity free it fails too, and the name drawn is
    /// not put back.
    pub fn allocate_bot(&mut self) -> (r: Result<(String, I), BotCreationError>)
        ensures
            final(self).wf(),
            final(self).bots() == old(self).bots(),
            final(self).config() == old(self).config(),
            old(self).name_pool().len() == 0 ==> r == Err::<(String, I), BotCreationError>(
                BotCreationError::OutOfNames,
            ) && final(self).name_pool() == old(self).name_pool() && final(self).id_pool()
                == old(self).id_pool(),
            old(self).name_pool().len() > 0 && old(self).id_pool().len() == 0 ==> r == Err::<
                (String, I),
                BotCreationError,
            >(BotCreationError::OutOfIdentities) && final(self).id_pool() == old(self).id_pool()
                && exists|n: String|
                Self::handed_out(old(self).name_pool(), final(self).name_pool(), n),
            old(self).name_pool().len() > 0 && old(self).id_pool().len() > 0 ==> (r matches Ok(
                (n, id),
            ) && Self::handed_out(old(self).name_pool(), final(self).name_pool(), n)
                && Self::handed_out(old(self).id_pool(), final(self).id_pool(), id)),
    {
        broadcast use vstd::seq_lib::group_to_multiset_ensures;

        proof {
            use_type_invariant(&self.connected);
        }
        let ghost names0 = self.available_names@;
        let ghost ids0 = self.available_ids@;
        shuffle(&mut self.available_names, &mut self.rng);
        let ghost names1 = self.available_names@;
        let name = match self.available_names.pop() {
            Some(v) => v,
            None => {
                assert(self.available_names@ =~= names0);
                return Err(BotCreationError::OutOfNames);
            },
        };
        proof {
            let shuffled = self.available_names@.push(name);
            assert(shuffled =~= names1);
            assert(shuffled.to_multiset() == names0.to_multiset());
            assert(shuffled.contains(name)) by {
                assert(shuffled[shuffled.len() - 1] == name);
            }
            assert(self.available_names@.to_multiset() =~= names0.to_multiset().remove(name));
            assert(shuffled.to_multiset().count(name) > 0);
            assert(names0.to_multiset().count(name) > 0);
            assert(names0.contains(name));
            assert(Self::handed_out(names0, self.available_names@, name));
        }
        let ghost names2 = self.available_names@;
        shuffle(&mut self.available_ids, &mut self.rng);
        let ghost ids1 = self.available_ids@;
        let identity = match self.available_ids.pop() {
            Some(v) => v,
            None => {
                assert(self.available_ids@ =~= ids0);
                assert(self.available_names@ == names2);
                assert(Self::handed_out(old(self).name_pool(), self.name_pool(), name));
                return Err(BotCreationError::OutOfIdentities);
            },
        };
        proof {
            let shuffled = self.available_ids@.push(identity);
            assert(shuffled =~= ids1);
            assert(shuffled.to_multiset() == ids0.to_multiset());
            assert(shuffled.contains(identity)) by {
                assert(shuffled[shuffled.len() - 1] == identity);
            }
            assert(self.available_ids@.to_multiset() =~= ids0.to_multiset().remove(identity));
            assert(shuffled.to_multiset().count(identity) > 0);
            assert(ids0.to_multiset().count(identity) > 0);
            assert(ids0.contains(identity));
        }
        Ok((name, identity))
    }

    /// The bot that serves `channel`. In local mode that is the first
    /// connected bot whatever the channel; otherwise it is the first bot
    /// whose reported channel, in `bot_channels` (in the order of `bots()`),
    /// is `channel`.
    pub fn bot_by_channel(&self, channel: u64, bot_channels: &Vec<Option<u64>>) -> (r: Option<&B>)
        requires
            !self.config().local ==> bot_channels@.len() == self.bots().len(),
        ensures
            if self.config().local {
                if self.bots().len() > 0 {
                    r == Some(&self.bots()[0].1)
                } else {
                    r is None
                }
            } else if any_in_channel(bot_channels@, channel) {
                r matches Some(b) && exists|i: int|
                    first_in_channel(bot_channels@, channel, i) && *b == self.bots()[i].1
            } else {
                r is None
            },
    {
        if self.config.local {
            if self.connected.list.len() > 0 {
                return Some(&self.connected.list[0].1);
            } else {
                return None;
            }
        }
        let n: usize = bot_channels.len();
        for i in 0..n
            invariant
                n == bot_channels@.len(),
                n == self.connected.list@.len(),
                !self.config().local,
                forall|j: int| 0 <= j < i ==> bot_channels@[j] != Some(channel),
        {
            if bot_channels[i] == Some(channel) {
                assert(first_in_channel(bot_channels@, channel, i as int));
                return Some(&self.connected.list[i].1);
            }
        }
        None
    }

    /// In local mode the master starts one bot as soon as it runs, under the
    /// first free name and identity (neither leaves the pool); otherwise it
    /// starts none.
    pub fn local_bot_seed(&self) -> (r: Option<(String, &I)>)
        requires
            self.config().local ==> self.name_pool().len() > 0 && self.id_pool().len() > 0,
        ensures
            r is Some == self.config().local,
            r matches Some((name, id)) ==> name == self.name_pool()[0] && *id
                == self.id_pool()[0],
    {
        if self.config.local {
            Some((self.available_names[0].clone(), &self.available_ids[0]))
        } else {
            None
        }
    }

    /// In local mode every web token belongs to the user `local`; otherwise
    /// the token has to be looked up.
    pub fn local_uid(&self) -> (uid: Option<String>)
        ensures
            uid is Some == self.config().local,
            uid matches Some(u) ==> u@ == "local"@,
    {
        if self.config.local {
            Some(String::from_str("local"))
        } else {
            None
        }
    }

    /// Records that the music bot `name` connected with handle `bot`; a bot
    /// already known under that name gets the new handle.
    pub fn insert_bot(&mut self, name: String, bot: B)
        ensures
            final(self).wf(),
            final(self).bots() == old(self).bots_after_insert(name, bot),
            final(self).config() == old(self).config(),
            final(self).name_pool() == old(self).name_pool(),
            final(self).id_pool() == old(self).id_pool(),
    {
        proof {
            use_type_invariant(&self.connected);
        }
        self.connected.insert(name, bot);
        proof {
            use_type_invariant(&self.connected);
            assert(self.bots() == old(self).bots_after_insert(name, bot));
        }
    }

    /// A music bot left: it is no longer connected, and its name and
    /// identity are free again.
    pub fn on_bot_disconnect(&mut self, name: String, id: I)
        ensures
            final(self).wf(),
            final(self).bots() == old(self).bots_after_remove(name@),
            final(self).name_pool() == old(self).name_pool().push(name),
            final(self).id_pool() == old(self).id_pool().push(id),
            final(self).config() == old(self).config(),
    {
        proof {
            use_type_invariant(&self.connected);
        }
        self.connected.remove(&name);
        proof {
            use_type_invariant(&self.connected);
        }
        self.available_names.push(name);
        self.available_ids.push(id);
    }
}

/// A bot that leaves gives back what it took: a name and an identity drawn
/// for a bot, the bot connected under that name, and the bot leaving again
/// leave the connected bots as they were and the pools of free names and
/// identities holding the same elements as before.
pub proof fn lemma_disconnect_returns_allocation<I, V, B>(
    s0: MasterBot<I, V, B>,
    s1: MasterBot<I, V, B>,
    s2: MasterBot<I, V, B>,
    s3: MasterBot<I, V, B>,
    name: String,
    id: I,
    bot: B,
)
    requires
        s0.wf(),
        !s0.bot_name_seq().contains(name@),
        MasterBot::<I, V, B>::handed_out(s0.name_pool(), s1.name_pool(), name),
        MasterBot::<I, V, B>::handed_out(s0.id_pool(), s1.id_pool(), id),
        s1.bots() == s0.bots(),
        s2.bots() == s1.bots_after_insert(name, bot),
        s2.name_pool() == s1.name_pool(),
        s2.id_pool() == s1.id_pool(),
        s3.bots() == s2.bots_after_remove(name@),
        s3.name_pool() == s2.name_pool().push(name),
        s3.id_pool() == s2.id_pool().push(id),
    ensures
        s3.bots() == s0.bots(),
        s3.name_pool().to_multiset() == s0.name_pool().to_multiset(),
        s3.id_pool().to_multiset() == s0.id_pool().to_multiset(),
{
    broadcast use vstd::seq_lib::group_to_multiset_ensures;

    assert(s1.bot_name_seq() == s0.bot_name_seq());
    assert(s2.bots() == s0.bots().push((name, bot)));
    let names2 = s2.bot_name_seq();
    assert(names2 =~= s0.bot_name_seq().push(name@));
    let last: int = s0.bots().len() as int;
    assert(names2[last] == name@);
    assert(names2.contains(name@));
    let k: int = names2.index_of(name@);
    assert(names2[k] == name@);
    assert(k == last) by {
        if k != last {
            assert(s0.bot_name_seq()[k] == name@);
        }
    }
    assert(s3.bots() =~= s0.bots());
    assert(s0.name_pool().to_multiset().count(name) > 0);
    assert(s3.name_pool().to_multiset() =~= s0.name_pool().to_multiset());
    assert(s0.id_pool().to_multiset().count(id) > 0);
    assert(s3.id_pool().to_multiset() =~= s0.id_pool().to_multiset());
}

/// Something said to the master bot in TeamSpeak, as far as its decisions
/// depend on it.
#[derive(Debug, Clone)]
pub enum ChatEvent {
    /// The user `user` poked the master.
    Poke { user: u16 },
    /// The client `invoker` (with unique id `invoker_uid`, if known) wrote
    /// `text` to the master in private.
    ClientText { text: String, invoker: u16, invoker_uid: Option<String> },
    /// The client `client` appeared; `own_id` is the master's own client id.
    ClientAdded { client: u16, own_id: u16 },
    /// Anything else.
    Other,
}

/// What the master bot does about a chat event.
#[derive(Debug, Clone)]
pub enum MasterAction {
    /// Create a music bot for the user.
    SpawnBotFor { user: u16 },
    /// Store `token` as a web login token of the user `uid` and send it to
    /// the client; `None` when no token could be generated.
    SendWebToken { client: u16, uid: String, token: Option<String> },
    /// Set the master's description to `text`.
    SetDescription { text: String },
    /// Nothing.
    Ignore,
}

/// Decides what the master bot does about a chat event: a poke asks for a
/// music bot, the private message `auth` asks for a web login token (five
/// random words joined by `-`), and the master's own arrival sets its
/// description.
pub fn on_message(event: ChatEvent) -> (action: MasterAction)
    requires
        event matches ChatEvent::ClientText { text, invoker_uid, .. } ==> (text@ == "auth"@
            ==> invoker_uid is Some),
    ensures
        match event {
            ChatEvent::Poke { user } => action == MasterAction::SpawnBotFor { user },
            ChatEvent::ClientText { text, invoker, invoker_uid } => if text@ == "auth"@ {
                action matches MasterAction::SendWebToken { client, uid, token } && client
                    == invoker && Some(uid) == invoker_uid && (token matches Some(t)
                    && is_web_token(t@))
            } else {
                action is Ignore
            },
            ChatEvent::ClientAdded { client, own_id } => if client == own_id {
                action matches MasterAction::SetDescription { text } && text@
                    == "Poke me if you want a music bot!"@
            } else {
                action is Ignore
            },
            ChatEvent::Other => action is Ignore,
        },
{
    match event {
        ChatEvent::Poke { user } => MasterAction::SpawnBotFor { user },
        ChatEvent::ClientText { text, invoker, invoker_uid } => {
            let auth = String::from_str("auth");
            if text == auth {
                let token = petname(5, "-");
                let uid = invoker_uid.unwrap();
                MasterAction::SendWebToken { client: invoker, uid, token }
            } else {
                MasterAction::Ignore
            }
        },
        ChatEvent::ClientAdded { client, own_id } => {
            if client == own_id {
                MasterAction::SetDescription {
                    text: String::from_str("Poke me if you want a music bot!"),
                }
            } else {
                MasterAction::Ignore
            }
        },
        ChatEvent::Other => MasterAction::Ignore,
    }
}

} // verus!
