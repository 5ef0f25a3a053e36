//! The intent mask: which categories of events a session asks the gateway
//! for, as one bit per category.

use vstd::prelude::*;

verus! {

/// A category of events. The set is closed: there is no way to name a bit
/// that stands for no category.
#[derive(Debug, Clone, Copy, PartialEq, Eq, Structural)]
pub enum Category {
    /// A guild or a channel is created, updated or deleted.
    Guilds,
    /// A member joins, changes or leaves.
    GuildMembers,
    /// Every message of a guild; private bots only.
    GuildMessages,
    /// A reaction is added to a message or taken from it.
    GuildMessageReactions,
    /// A direct message is created or deleted.
    DirectMessage,
    /// An interaction is created.
    Interaction,
    /// A message passes or fails the audit.
    MessageAudit,
    /// Threads, posts and replies of a forum; private bots only.
    ForumsEvent,
    /// Audio starts or ends, someone takes or leaves the microphone.
    AudioAction,
    /// A message that mentions the bot; public bots.
    PublicGuildMessages,
}

impl Category {
    /// The position of the category's bit, counted from the lowest.
    pub open spec fn position(self) -> u32 {
        match self {
            Category::Guilds => 0,
            Category::GuildMembers => 1,
            Category::GuildMessages => 9,
            Category::GuildMessageReactions => 10,
            Category::DirectMessage => 12,
            Category::Interaction => 26,
            Category::MessageAudit => 27,
            Category::ForumsEvent => 28,
            Category::AudioAction => 29,
            Category::PublicGuildMessages => 30,
        }
    }

    /// The mask in which only the category's bit is set.
    pub open spec fn mask(self) -> u32 {
        1u32 << self.position()
    }

    /// The mask in which only the category's bit is set.
    pub fn bit(self) -> (mask: u32)
        ensures
            mask == self.mask(),
    {
        assert(1u32 << 0u32 == 0x0000_0001u32) by (bit_vector);
        assert(1u32 << 1u32 == 0x0000_0002u32) by (bit_vector);
        assert(1u32 << 9u32 == 0x0000_0200u32) by (bit_vector);
        assert(1u32 << 10u32 == 0x0000_0400u32) by (bit_vector);
        assert(1u32 << 12u32 == 0x0000_1000u32) by (bit_vector);
        assert(1u32 << 26u32 == 0x0400_0000u32) by (bit_vector);
        assert(1u32 << 27u32 == 0x0800_0000u32) by (bit_vector);
        assert(1u32 << 28u32 == 0x1000_0000u32) by (bit_vector);
        assert(1u32 << 29u32 == 0x2000_0000u32) by (bit_vector);
        assert(1u32 << 30u32 == 0x4000_0000u32) by (bit_vector);
        match self {
            Category::Guilds => Subscription::GUILDS,
            Category::GuildMembers => Subscription::GUILD_MEMBERS,
            Category::GuildMessages => Subscription::GUILD_MESSAGES,
            Category::GuildMessageReactions => Subscription::GUILD_MESSAGE_REACTIONS,
            Category::DirectMessage => Subscription::DIRECT_MESSAGE,
            Category::Interaction => Subscription::INTERACTION,
            Category::MessageAudit => Subscription::MESSAGE_AUDIT,
            Category::ForumsEvent => Subscription::FORUMS_EVENT,
            Category::AudioAction => Subscription::AUDIO_ACTION,
            Category::PublicGuildMessages => Subscription::PUBLIC_GUILD_MESSAGES,
        }
    }
}

/// The bitwise union of the masks of `selected`.
pub open spec fn union_of(selected: Seq<Category>) -> u32
    decreases selected.len(),
{
    if selected.len() == 0 {
        0
    } else {
        union_of(selected.drop_last()) | selected.last().mask()
    }
}

/// Whether the bit of `category` is set in `bits`.
pub open spec fn holds(bits: u32, category: Category) -> bool {
    bits & category.mask() != 0
}

/// What setting one bit does to the test of another.
proof fn lemma_set_then_test(bits: u32, set: u32, test: u32)
    by (bit_vector)
    requires
        set < 32,
        test < 32,
    ensures
        ((bits | (1u32 << set)) & (1u32 << test) != 0) <==> (bits & (1u32 << test) != 0 || set
            == test),
        (0u32 & (1u32 << test)) == 0,
{
}

/// The mask of a selection holds the bits of the selected categories and no
/// others.
pub proof fn lemma_union_of_holds_selected(selected: Seq<Category>, category: Category)
    ensures
        holds(union_of(selected), category) <==> selected.contains(category),
    decreases selected.len(),
{
    if selected.len() == 0 {
        lemma_set_then_test(0, 0, category.position());
    } else {
        let front = selected.drop_last();
        let last = selected.last();
        lemma_union_of_holds_selected(front, category);
        lemma_set_then_test(union_of(front), last.position(), category.position());
        if front.contains(category) {
            let j = choose|j: int| 0 <= j < front.len() && front[j] == category;
            assert(selected[j] == category);
        }
        if selected.contains(category) && category != last {
            let j = choose|j: int| 0 <= j < selected.len() && selected[j] == category;
            assert(front[j] == category);
        }
        if category == last {
            assert(selected[selected.len() - 1] == category);
        }
    }
}

/// The order of a selection and what it repeats do not matter: two
/// selections of the same categories have the same mask bits for every
/// category.
pub proof fn lemma_union_of_ignores_order(first: Seq<Category>, second: Seq<Category>, category: Category)
    requires
        first.to_set() == second.to_set(),
    ensures
        holds(union_of(first), category) == holds(union_of(second), category),
{
    lemma_union_of_holds_selected(first, category);
    lemma_union_of_holds_selected(second, category);
    assert(first.contains(category) == first.to_set().contains(category));
    assert(second.contains(category) == second.to_set().contains(category));
}

/// Builds the intent mask of a selection of categories: the bitwise union
/// of their masks.
pub fn build(selected: &[Category]) -> (mask: u32)
    ensures
        mask == union_of(selected@),
        forall|category: Category| holds(mask, category) <==> selected@.contains(category),
{
    let mut mask: u32 = 0;
    let mut i: usize = 0;
    while i < selected.len()
        invariant
            i <= selected.len(),
            mask == union_of(selected@.take(i as int)),
        decreases selected.len() - i,
    {
        assert(selected@.take(i + 1).drop_last() =~= selected@.take(i as int));
        mask = mask | selected[i].bit();
        i += 1;
    }
    assert(selected@.take(i as int) =~= selected@);
    assert forall|category: Category| holds(mask, category) <==> selected@.contains(category) by {
        lemma_union_of_holds_selected(selected@, category);
    }
    mask
}

/// The mask that a session identifies with: all messages of a guild,
/// reactions, interactions and the messages that mention the bot.
pub const DEFAULT_INTENTS: u32 = 0x4400_0600;

/// Builds the mask that a session identifies with.
pub fn default_intents() -> (mask: u32)
    ensures
        mask == union_of(
            seq![
                Category::GuildMessages,
                Category::GuildMessageReactions,
                Category::Interaction,
                Category::PublicGuildMessages,
            ],
        ),
        mask == DEFAULT_INTENTS,
{
    let selected = [
        Category::GuildMessages,
        Category::GuildMessageReactions,
        Category::Interaction,
        Category::PublicGuildMessages,
    ];
    let mask = build(&selected);
    proof {
        let chosen = selected@;
        assert(chosen =~= seq![
            Category::GuildMessages,
            Category::GuildMessageReactions,
            Category::Interaction,
            Category::PublicGuildMessages,
        ]);
        reveal_with_fuel(union_of, 5);
        assert(chosen.drop_last() =~= seq![
            Category::GuildMessages,
            Category::GuildMessageReactions,
            Category::Interaction,
        ]);
        assert(chosen.drop_last().drop_last() =~= seq![
            Category::GuildMessages,
            Category::GuildMessageReactions,
        ]);
        assert(chosen.drop_last().drop_last().drop_last() =~= seq![Category::GuildMessages]);
        assert(chosen.drop_last().drop_last().drop_last().drop_last() =~= Seq::<Category>::empty());
        assert((((0u32 | (1u32 << 9u32)) | (1u32 << 10u32)) | (1u32 << 26u32)) | (1u32 << 30u32)
            == 0x4400_0600u32) by (bit_vector);
    }
    mask
}

/// A set of categories, held as an intent mask.
#[derive(Debug, Clone, Copy, PartialEq, Eq, Structural)]
pub struct Subscription {
    pub bits: u32,
}

impl View for Subscription {
    type V = Set<Category>;

    /// The categories whose bits are set.
    open spec fn view(&self) -> Set<Category> {
        Set::new(|category: Category| holds(self.bits, category))
    }
}

impl Subscription {
    /// Bit of [`Category::Guilds`].
    pub const GUILDS: u32 = 0x0000_0001;

    /// Bit of [`Category::GuildMembers`].
    pub const GUILD_MEMBERS: u32 = 0x0000_0002;

    /// Bit of [`Category::GuildMessages`].
    pub const GUILD_MESSAGES: u32 = 0x0000_0200;

    /// Bit of [`Category::GuildMessageReactions`].
    pub const GUILD_MESSAGE_REACTIONS: u32 = 0x0000_0400;

    /// Bit of [`Category::DirectMessage`].
    pub const DIRECT_MESSAGE: u32 = 0x0000_1000;

    /// Bit of [`Category::Interaction`].
    pub const INTERACTION: u32 = 0x0400_0000;

    /// Bit of [`Category::MessageAudit`].
    pub const MESSAGE_AUDIT: u32 = 0x0800_0000;

    /// Bit of [`Category::ForumsEvent`].
    pub const FORUMS_EVENT: u32 = 0x1000_0000;

    /// Bit of [`Category::AudioAction`].
    pub const AUDIO_ACTION: u32 = 0x2000_0000;

    /// Bit of [`Category::PublicGuildMessages`].
    pub const PUBLIC_GUILD_MESSAGES: u32 = 0x4000_0000;

    /// The subscription to nothing.
    pub fn empty() -> (subscription: Subscription)
        ensures
            subscription.bits == 0,
            subscription@ == Set::<Category>::empty(),
    {
        let subscription = Subscription { bits: 0 };
        proof {
            assert forall|category: Category| !holds(0u32, category) by {
                lemma_set_then_test(0, 0, category.position());
            }
            assert(subscription@ =~= Set::<Category>::empty());
        }
        subscription
    }

    /// The subscription to the categories of `selected`.
    pub fn of(selected: &[Category]) -> (subscription: Subscription)
        ensures
            subscription.bits == union_of(selected@),
            subscription@ == selected@.to_set(),
    {
        let subscription = Subscription { bits: build(selected) };
        proof {
            assert forall|category: Category|
                subscription@.contains(category) == selected@.to_set().contains(category) by {
                assert(selected@.contains(category) == selected@.to_set().contains(category));
            }
            assert(subscription@ =~= selected@.to_set());
        }
        subscription
    }

    /// The mask to advertise.
    pub fn bits(&self) -> (bits: u32)
        ensures
            bits == self.bits,
    {
        self.bits
    }

    /// Whether `category` is subscribed to.
    pub fn contains(&self, category: Category) -> (yes: bool)
        ensures
            yes == self@.contains(category),
    {
        self.bits & category.bit() != 0
    }

    /// Subscribes to `category` as well.
    pub fn insert(&mut self, category: Category)
        ensures
            final(self).bits == old(self).bits | category.mask(),
            final(self)@ == old(self)@.insert(category),
    {
        let ghost before = *self;
        self.bits = self.bits | category.bit();
        proof {
            assert forall|other: Category|
                self@.contains(other) == before@.insert(category).contains(other) by {
                lemma_set_then_test(before.bits, category.position(), other.position());
            }
            assert(self@ =~= before@.insert(category));
        }
    }
}

} // verus!
