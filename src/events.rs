use vstd::prelude::*;

verus! {

/// A domain event together with the delivery metadata of the frame that carried it.
#[derive(Debug, Clone)]
pub struct NewTwitchEventMessage {
    pub event: TwitchEvent,
    pub message_id: String,
    pub message_at: String,
}

/// The closed set of domain events the feed delivers.
#[derive(Debug, Clone)]
pub enum TwitchEvent {
    ChannelFollow(FollowEvent),
    ChannelSubscribe(SubscribeEvent),
    ChannelRaid(RaidEvent),
    ChannelSubGift(ChannelGiftMessage),
}

#[derive(Debug, Clone)]
pub struct FollowEvent {
    pub user_name: String,
    pub user_id: i64,
}

#[derive(Debug, Clone)]
pub struct RaidEvent {
    pub from_broadcaster_user_id: String,
    pub from_broadcaster_user_login: String,
    pub from_broadcaster_user_name: String,
    pub to_broadcaster_user_id: String,
    pub to_broadcaster_user_login: String,
    pub to_broadcaster_user_name: String,
    pub viewers: i64,
}

#[derive(Debug, Clone)]
pub struct SubscribeEvent {
    pub broadcaster_user_id: i64,
    pub broadcaster_user_name: String,
    pub user_name: String,
    pub user_id: i64,
    pub is_gift: bool,
    pub tier: NullSubTier,
}

/// A message to put on screen, with media to go with it and how long to show it.
#[derive(Debug, Clone)]
pub struct DisplayMessage {
    pub message: String,
    pub image_url: String,
    pub sound_url: String,
    pub display_time: usize,
}

/// A gift of subscriptions. The gifter's id, login and name are present
/// together or absent together, and absent whenever the gift is anonymous.
#[derive(Debug, Clone)]
pub struct ChannelGiftMessage {
    /// The broadcaster user ID.
    pub broadcaster_user_id: String,
    /// The broadcaster login.
    pub broadcaster_user_login: String,
    /// The broadcaster display name.
    pub broadcaster_user_name: String,
    /// The number of subscriptions gifted by this user in the channel; absent
    /// for anonymous gifts or where the gifter chose not to share it.
    pub cumulative_total: Option<i64>,
    /// Whether the subscription gift was anonymous.
    pub is_anonymous: bool,
    /// The tier of subscriptions in the subscription gift.
    pub tier: NullSubTier,
    /// The number of subscriptions in the subscription gift.
    pub total: i64,
    /// The user ID of the gifter.
    pub user_id: Option<String>,
    /// The user login of the gifter.
    pub user_login: Option<String>,
    /// The user display name of the gifter.
    pub user_name: Option<String>,
}

/// The tier of a subscription, each with its display string; `Other` takes
/// any value that is none of the first four.
#[derive(Debug, Clone)]
pub enum NullSubTier {
    /// Tier 1.
    Tier1(String),
    /// Tier 2.
    Tier2(String),
    /// Tier 3.
    Tier3(String),
    /// Prime subscription.
    Prime(String),
    /// Any other tier.
    Other(String),
}

/// Why a gift-subscription event could not be built.
#[derive(Debug, Clone, Copy, PartialEq, Eq, Structural)]
pub enum GiftError {
    /// An anonymous gift named a gifter.
    AnonymousWithGifter,
    /// Some of the gifter's id, login and name were given and some were not.
    PartialGifter,
}

/// The gifter fields are all present or all absent.
pub open spec fn gifter_all_or_none(
    user_id: Option<String>,
    user_login: Option<String>,
    user_name: Option<String>,
) -> bool {
    (user_id is Some) == (user_login is Some) && (user_login is Some) == (user_name is Some)
}

/// The coupling between anonymity and the gifter fields.
pub open spec fn gifter_coupled(
    is_anonymous: bool,
    user_id: Option<String>,
    user_login: Option<String>,
    user_name: Option<String>,
) -> bool {
    &&& gifter_all_or_none(user_id, user_login, user_name)
    &&& is_anonymous ==> user_id is None
}

impl ChannelGiftMessage {
    pub open spec fn well_formed(&self) -> bool {
        gifter_coupled(self.is_anonymous, self.user_id, self.user_login, self.user_name)
    }

    /// Builds a gift event, refusing gifter fields that break the coupling:
    /// an anonymous gift names no gifter, and a named one gives the id, the
    /// login and the name together.
    pub fn new(
        broadcaster_user_id: String,
        broadcaster_user_login: String,
        broadcaster_user_name: String,
        cumulative_total: Option<i64>,
        is_anonymous: bool,
        tier: NullSubTier,
        total: i64,
        user_id: Option<String>,
        user_login: Option<String>,
        user_name: Option<String>,
    ) -> (r: Result<ChannelGiftMessage, GiftError>)
        ensures
            r is Ok <==> gifter_coupled(is_anonymous, user_id, user_login, user_name),
            r == Err::<ChannelGiftMessage, GiftError>(GiftError::PartialGifter) <==> !gifter_all_or_none(
                user_id,
                user_login,
                user_name,
            ),
            r matches Ok(g) ==> {
                &&& g.well_formed()
                &&& g.broadcaster_user_id == broadcaster_user_id
                &&& g.broadcaster_user_login == broadcaster_user_login
                &&& g.broadcaster_user_name == broadcaster_user_name
                &&& g.cumulative_total == cumulative_total
                &&& g.is_anonymous == is_anonymous
                &&& g.tier == tier
                &&& g.total == total
                &&& g.user_id == user_id
                &&& g.user_login == user_login
                &&& g.user_name == user_name
            },
    {
        let all_or_none = user_id.is_some() == user_login.is_some() && user_login.is_some()
            == user_name.is_some();
        if !all_or_none {
            return Err(GiftError::PartialGifter);
        }
        if is_anonymous && user_id.is_some() {
            return Err(GiftError::AnonymousWithGifter);
        }
        Ok(ChannelGiftMessage {
            broadcaster_user_id,
            broadcaster_user_login,
            broadcaster_user_name,
            cumulative_total,
            is_anonymous,
            tier,
            total,
            user_id,
            user_login,
            user_name,
        })
    }

    /// Whether the gifter fields of this event are coupled as they should be.
    pub fn has_coupled_gifter(&self) -> (r: bool)
        ensures
            r == self.well_formed(),
    {
        let all_or_none = self.user_id.is_some() == self.user_login.is_some()
            && self.user_login.is_some() == self.user_name.is_some();
        all_or_none && !(self.is_anonymous && self.user_id.is_some())
    }
}

} // verus!
