//! Authenticity scoring of community posts.
use vstd::prelude::*;

use crate::reddit::RedditPost;

verus! {

/// The score every Reddit post receives, in hundredths (one half).
pub open spec fn reddit_score() -> u8 {
    50
}

/// Scores the authenticity of posts.  Heuristic scoring was retired: a card is
/// verified by finding it on Scryfall, and every Reddit post scores one half.
pub struct AuthenticityScorer;

impl AuthenticityScorer {
    /// The authenticity score of a Reddit post, in hundredths: always 50.
    pub fn score_reddit(_post: &RedditPost, _trusted_users: &[String]) -> (r: u8)
        ensures
            r == reddit_score(),
    {
        50
    }
}

} // verus!
