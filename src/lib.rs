//! Small, self-contained lessons on the language, each stated with a contract.

pub mod art;
pub mod closures;
pub mod iterators;
pub mod limit_tracker;
pub mod restaurant;
pub mod testing;

pub use art::{add_one, get, Color};
pub use closures::{generate_workout, generate_workout2, Cacher, Workout};
pub use iterators::{shoes_in_my_size, Counter, Shoe};
pub use limit_tracker::{quota_warning, LimitTracker, Messenger, QuotaWarning};
pub use testing::{add_two, greeting, Guess, Guess2, Rectangle};
