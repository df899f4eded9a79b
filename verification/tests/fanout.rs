//! Concurrency test: with two providers resolving after different
//! simulated delays, the consumer receives the faster provider's outcome
//! strictly before the slower one's, regardless of launch order.

use std::time::Duration;

use translator::common::{Config, Credential, TransError, TransRes};
use translator::dispatch::{Dispatcher, Provider, ProviderOutcome};

#[test]
fn faster_provider_arrives_first() {
    let rt = tokio::runtime::Builder::new_multi_thread()
        .worker_threads(2)
        .enable_time()
        .build()
        .unwrap();
    rt.block_on(async {
        let (tx, mut rx) = tokio::sync::mpsc::channel::<ProviderOutcome>(4);

        // Launched first, resolves last.
        let slow = tx.clone();
        let slow_task = tokio::spawn(async move {
            tokio::time::sleep(Duration::from_millis(400)).await;
            slow.send(ProviderOutcome {
                provider: Provider::Baidu,
                result: Ok(TransRes::create("slow".to_string())),
            })
            .await
            .map_err(|_| TransError::ChannelError)
        });
        // Launched second, resolves first.
        let fast = tx.clone();
        let fast_task = tokio::spawn(async move {
            tokio::time::sleep(Duration::from_millis(50)).await;
            fast.send(ProviderOutcome {
                provider: Provider::Tencent,
                result: Ok(TransRes::create("fast".to_string())),
            })
            .await
            .map_err(|_| TransError::ChannelError)
        });
        drop(tx);

        let config = Config::create(
            Some(Credential::create("k".to_string(), "s".to_string())),
            None,
            None,
            Some(Credential::create("k".to_string(), "s".to_string())),
        );
        let mut dispatcher = Dispatcher::new(&config);
        while let Some(outcome) = rx.recv().await {
            dispatcher.deliver(outcome).unwrap();
        }
        slow_task.await.unwrap().unwrap();
        fast_task.await.unwrap().unwrap();

        assert!(dispatcher.is_complete());
        let outcomes = dispatcher.outcomes();
        assert_eq!(outcomes.len(), 2);
        assert_eq!(outcomes[0].provider, Provider::Tencent);
        assert_eq!(outcomes[0].result.as_ref().unwrap().result(), "fast");
        assert_eq!(outcomes[1].provider, Provider::Baidu);
        assert_eq!(outcomes[1].result.as_ref().unwrap().result(), "slow");
    });
}
