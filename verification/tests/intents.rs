use ackerman_qqbot::subscription_mask::{
    build, default_intents, Category, Subscription, DEFAULT_INTENTS,
};

const ALL: [Category; 10] = [
    Category::Guilds,
    Category::GuildMembers,
    Category::GuildMessages,
    Category::GuildMessageReactions,
    Category::DirectMessage,
    Category::Interaction,
    Category::MessageAudit,
    Category::ForumsEvent,
    Category::AudioAction,
    Category::PublicGuildMessages,
];

#[test]
fn each_category_has_its_bit() {
    let positions = [0u32, 1, 9, 10, 12, 26, 27, 28, 29, 30];
    for (category, position) in ALL.iter().zip(positions) {
        assert_eq!(category.bit(), 1u32 << position);
    }
}

#[test]
fn mask_of_three_categories() {
    let mask = build(&[Category::GuildMessages, Category::PublicGuildMessages, Category::Interaction]);
    assert_eq!(mask, (1 << 9) | (1 << 26) | (1 << 30));
    assert_eq!(mask, 0x4400_0200);
}

#[test]
fn mask_of_nothing_is_zero() {
    assert_eq!(build(&[]), 0);
}

#[test]
fn mask_ignores_order_and_repetition() {
    let one = build(&[Category::Guilds, Category::AudioAction, Category::DirectMessage]);
    let other = build(&[
        Category::DirectMessage,
        Category::Guilds,
        Category::Guilds,
        Category::AudioAction,
        Category::DirectMessage,
    ]);
    assert_eq!(one, other);
    assert_eq!(one, 0x2000_1001);
}

#[test]
fn mask_of_every_category() {
    assert_eq!(build(&ALL), 0x7c00_1603);
}

#[test]
fn mask_a_session_identifies_with() {
    assert_eq!(default_intents(), (1 << 9) | (1 << 10) | (1 << 26) | (1 << 30));
    assert_eq!(default_intents(), DEFAULT_INTENTS);
    assert_eq!(DEFAULT_INTENTS, 1_140_852_224);
}

#[test]
fn subscription_holds_what_was_selected() {
    let subscription = Subscription::of(&[Category::GuildMembers, Category::ForumsEvent]);
    assert_eq!(subscription.bits(), 0x1000_0002);
    for category in ALL {
        let selected = category == Category::GuildMembers || category == Category::ForumsEvent;
        assert_eq!(subscription.contains(category), selected);
    }
}

#[test]
fn subscription_grows_by_insert() {
    let mut subscription = Subscription::empty();
    assert_eq!(subscription.bits(), 0);
    assert!(!subscription.contains(Category::Interaction));
    subscription.insert(Category::Interaction);
    assert_eq!(subscription.bits(), 1 << 26);
    subscription.insert(Category::Interaction);
    assert_eq!(subscription.bits(), 1 << 26);
    subscription.insert(Category::Guilds);
    assert_eq!(subscription, Subscription { bits: (1 << 26) | 1 });
    assert!(subscription.contains(Category::Interaction));
    assert!(subscription.contains(Category::Guilds));
    assert!(!subscription.contains(Category::GuildMembers));
}

#[test]
fn named_bits_are_the_category_bits() {
    let named = [
        Subscription::GUILDS,
        Subscription::GUILD_MEMBERS,
        Subscription::GUILD_MESSAGES,
        Subscription::GUILD_MESSAGE_REACTIONS,
        Subscription::DIRECT_MESSAGE,
        Subscription::INTERACTION,
        Subscription::MESSAGE_AUDIT,
        Subscription::FORUMS_EVENT,
        Subscription::AUDIO_ACTION,
        Subscription::PUBLIC_GUILD_MESSAGES,
    ];
    for (category, bit) in ALL.iter().zip(named) {
        assert_eq!(category.bit(), bit);
    }
    assert_eq!(
        Subscription::GUILD_MESSAGES
            | Subscription::GUILD_MESSAGE_REACTIONS
            | Subscription::INTERACTION
            | Subscription::PUBLIC_GUILD_MESSAGES,
        DEFAULT_INTENTS
    );
}
