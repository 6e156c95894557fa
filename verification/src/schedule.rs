//! When the service runs a pass by itself, and what it tells about that.
use vstd::prelude::*;

verus! {

/// The schedule of the weather pass as a cron expression with a seconds
/// field: at the start of every second hour.
pub const WEATHER_FETCH_SCHEDULE: &'static str = "0 0 */2 * * *";

/// The listing of the scheduled jobs and of the commands that do by hand
/// what the jobs do.
pub const JOB_LISTING: &'static str = "📋 Scheduled CRON Jobs:
  ⏰ Weather Fetch: Every 2 hours (0 0 */2 * * *)

🔧 Manual Commands:
  cargo run -- fetch-weather    (Manually fetch weather now)
  cargo run -- init-db          (Initialize database)
  cargo run -- test-email       (Send test email)
";

/// The listing of the scheduled jobs, ready to print.
pub fn list_jobs() -> (text: String)
    ensures
        text@ == JOB_LISTING@,
{
    String::from_str(JOB_LISTING)
}

} // verus!
