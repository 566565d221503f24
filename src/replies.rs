use vstd::prelude::*;

verus! {

/// A fixed message sent back to the chat.
#[derive(Clone, Copy, Debug, PartialEq, Eq, Structural)]
pub enum Reply {
    /// The chat may not use this command.
    NotAuthorized,
    /// The caller is not the administrator.
    AdminOnly,
    /// The chat was already authorized; nothing changed.
    AlreadyAuthorized,
    /// The chat has been authorized.
    Authorized,
    /// The chat was not authorized; nothing changed.
    NotCurrentlyAuthorized,
    /// The chat has been de-authorized.
    Deauthorized,
    /// The quote command was not a reply to a message.
    ReplyRequired,
    /// The replied-to message holds no text.
    TextOnly,
    /// Storing the quote failed.
    SaveFailed,
    /// The chat has fewer than two distinct quote authors.
    NeedMoreAuthors,
    /// The chat has no stored quote.
    NoQuotes,
    /// Writing the chat's authorization change failed.
    UpdateFailed,
}

/// The text of each fixed message.
pub open spec fn reply_text(r: Reply) -> Seq<char> {
    match r {
        Reply::NotAuthorized => "❌ This chat is not authorized to talk to me (╭ರ_•́)"@,
        Reply::AdminOnly => "❌ This command can only be used by the bot admin ᕦ(ò_óˇ)ᕤ"@,
        Reply::AlreadyAuthorized => "⚠️ This chat is already authorized (っ º - º ς)"@,
        Reply::Authorized => "✅ Chat authorized! ImmutableBot is now your buddy ദ്ദി ˉ͈̀꒳ˉ͈́ )✧"@,
        Reply::NotCurrentlyAuthorized => "⚠️ This chat is not currently authorized (  •̀ω  •́  )"@,
        Reply::Deauthorized => "⛔ Chat de-authorized! ImmutableBot will no longer respond here (っ◞‸◟ c)"@,
        Reply::ReplyRequired => "⚠️ Please reply to a message with /quote to save it ꉂ(˵˃ ᗜ ˂˵)"@,
        Reply::TextOnly => "⚠️ Can only save text messages (ᵕ—ᴗ—)"@,
        Reply::SaveFailed => "❌ Failed to save quote (⊙ _ ⊙ )"@,
        Reply::NeedMoreAuthors => "⚠️ Need at least 2 people with saved quotes to play! ٩( ᐖ )人( ᐛ )و"@,
        Reply::NoQuotes => "❌ No quotes found in database"@,
        Reply::UpdateFailed => "❌ Failed to update this chat's authorization (⊙ _ ⊙ )"@,
    }
}

impl Reply {
    /// The text sent for this message.
    pub fn text(&self) -> (r: &'static str)
        ensures
            r@ == reply_text(*self),
    {
        match self {
            Reply::NotAuthorized => "❌ This chat is not authorized to talk to me (╭ರ_•́)",
            Reply::AdminOnly => "❌ This command can only be used by the bot admin ᕦ(ò_óˇ)ᕤ",
            Reply::AlreadyAuthorized => "⚠️ This chat is already authorized (っ º - º ς)",
            Reply::Authorized => "✅ Chat authorized! ImmutableBot is now your buddy ദ്ദി ˉ͈̀꒳ˉ͈́ )✧",
            Reply::NotCurrentlyAuthorized => "⚠️ This chat is not currently authorized (  •̀ω  •́  )",
            Reply::Deauthorized => "⛔ Chat de-authorized! ImmutableBot will no longer respond here (っ◞‸◟ c)",
            Reply::ReplyRequired => "⚠️ Please reply to a message with /quote to save it ꉂ(˵˃ ᗜ ˂˵)",
            Reply::TextOnly => "⚠️ Can only save text messages (ᵕ—ᴗ—)",
            Reply::SaveFailed => "❌ Failed to save quote (⊙ _ ⊙ )",
            Reply::NeedMoreAuthors => "⚠️ Need at least 2 people with saved quotes to play! ٩( ᐖ )人( ᐛ )و",
            Reply::NoQuotes => "❌ No quotes found in database",
            Reply::UpdateFailed => "❌ Failed to update this chat's authorization (⊙ _ ⊙ )",
        }
    }
}

} // verus!
