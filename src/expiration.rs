//! The expiration reaper: a periodic sweep that expires overdue requests
//! and returns their escrowed coins.
use vstd::prelude::*;

use crate::error::AppError;
use crate::exchange::ExpirationProcessingResult;
use crate::exchange_service::ExchangeService;

verus! {

/// Seconds between two sweeps unless stated otherwise.
pub const DEFAULT_CHECK_INTERVAL_SECS: u64 = 300;

/// The reaper: the store it sweeps and how often it sweeps it.
pub struct ExchangeExpirationTask {
    pub exchange_service: ExchangeService,
    pub check_interval_secs: u64,
}

/// What a sweep's summary calls for in the service's log.
#[derive(Debug, Clone, Copy, PartialEq, Eq, Structural)]
pub enum SweepReport {
    /// Some requests were expired and refunded.
    Processed,
    /// Overdue requests were found but none could be expired.
    NoneProcessed,
    /// No request was overdue.
    NothingFound,
}

/// Classifies the summary of one sweep.
pub fn sweep_report(result: &ExpirationProcessingResult) -> (r: SweepReport)
    ensures
        result.processed_count > 0 ==> r == SweepReport::Processed,
        result.processed_count == 0 && result.total_found > 0 ==> r == SweepReport::NoneProcessed,
        result.processed_count == 0 && result.total_found == 0 ==> r == SweepReport::NothingFound,
{
    if result.has_processed() {
        SweepReport::Processed
    } else if result.total_found > 0 {
        SweepReport::NoneProcessed
    } else {
        SweepReport::NothingFound
    }
}

impl ExchangeExpirationTask {
    /// A reaper over `exchange_service` that sweeps every
    /// `DEFAULT_CHECK_INTERVAL_SECS` seconds.
    pub fn new(exchange_service: ExchangeService) -> (r: Self)
        ensures
            r.exchange_service == exchange_service,
            r.check_interval_secs == DEFAULT_CHECK_INTERVAL_SECS,
    {
        ExchangeExpirationTask { exchange_service, check_interval_secs: DEFAULT_CHECK_INTERVAL_SECS }
    }

    /// A reaper over `exchange_service` that sweeps every `interval_secs` seconds.
    pub fn with_interval(exchange_service: ExchangeService, interval_secs: u64) -> (r: Self)
        ensures
            r.exchange_service == exchange_service,
            r.check_interval_secs == interval_secs,
    {
        ExchangeExpirationTask { exchange_service, check_interval_secs: interval_secs }
    }

    /// Runs one sweep at `now`, as `ExchangeService::process_expired_requests` does.
    pub fn process_expired_requests(&mut self, now: i64) -> (r: Result<ExpirationProcessingResult, AppError>)
        requires
            old(self).exchange_service.wf(),
        ensures
            final(self).exchange_service.wf(),
            final(self).check_interval_secs == old(self).check_interval_secs,
            final(self).exchange_service.total_coins() == old(self).exchange_service.total_coins(),
            r is Ok,
            final(self).exchange_service.swept(&old(self).exchange_service, now, r->Ok_0),
    {
        self.exchange_service.process_expired_requests(now)
    }
}

} // verus!
