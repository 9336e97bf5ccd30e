use qaexchange::conditions::{TimeCondition, VolumeCondition};
use qaexchange::orders::{
    CancelOrderRequest, OrderStatistics, OrderStatus, SubmitOrderRequest, SubmitOrderResponse,
    TradeStatistics,
};

#[test]
fn test_time_condition_default() {
    let tc: TimeCondition = TimeCondition::default();
    assert_eq!(tc, TimeCondition::GFD);
}

#[test]
fn test_time_condition_values() {
    assert_eq!(TimeCondition::IOC.to_string(), "IOC");
    assert_eq!(TimeCondition::GFS.to_string(), "GFS");
    assert_eq!(TimeCondition::GFD.to_string(), "GFD");
    assert_eq!(TimeCondition::GTD.to_string(), "GTD");
    assert_eq!(TimeCondition::GTC.to_string(), "GTC");
    assert_eq!(TimeCondition::GFA.to_string(), "GFA");
}

#[test]
fn test_time_condition_from_str() {
    assert_eq!(TimeCondition::from_str("IOC"), TimeCondition::IOC);
    assert_eq!(TimeCondition::from_str("GFS"), TimeCondition::GFS);
    assert_eq!(TimeCondition::from_str("GFD"), TimeCondition::GFD);
    assert_eq!(TimeCondition::from_str("GTD"), TimeCondition::GTD);
    assert_eq!(TimeCondition::from_str("GTC"), TimeCondition::GTC);
    assert_eq!(TimeCondition::from_str("GFA"), TimeCondition::GFA);
    assert_eq!(TimeCondition::from_str("ioc"), TimeCondition::IOC);
    assert_eq!(TimeCondition::from_str("UNKNOWN"), TimeCondition::GFD);
}

#[test]
fn test_volume_condition_default() {
    let vc: VolumeCondition = VolumeCondition::default();
    assert_eq!(vc, VolumeCondition::ANY);
}

#[test]
fn test_volume_condition_values() {
    assert_eq!(VolumeCondition::ANY.to_string(), "ANY");
    assert_eq!(VolumeCondition::MIN.to_string(), "MIN");
    assert_eq!(VolumeCondition::ALL.to_string(), "ALL");
}

#[test]
fn test_volume_condition_from_str() {
    assert_eq!(VolumeCondition::from_str("ANY"), VolumeCondition::ANY);
    assert_eq!(VolumeCondition::from_str("MIN"), VolumeCondition::MIN);
    assert_eq!(VolumeCondition::from_str("ALL"), VolumeCondition::ALL);
    assert_eq!(VolumeCondition::from_str("all"), VolumeCondition::ALL);
    assert_eq!(VolumeCondition::from_str("UNKNOWN"), VolumeCondition::ANY);
}

#[test]
fn mixed_case_names_read_as_the_condition() {
    assert_eq!(TimeCondition::from_str("gTc"), TimeCondition::GTC);
    assert_eq!(VolumeCondition::from_str("mIn"), VolumeCondition::MIN);
    assert_eq!(TimeCondition::from_upper("gtc"), TimeCondition::GFD);
    assert_eq!(VolumeCondition::from_upper("min"), VolumeCondition::ANY);
}

#[test]
fn test_order_status_values() {
    let statuses = vec![
        OrderStatus::PendingRisk,
        OrderStatus::PendingRoute,
        OrderStatus::Submitted,
        OrderStatus::PartiallyFilled,
        OrderStatus::Filled,
        OrderStatus::Cancelled,
        OrderStatus::Rejected,
    ];
    assert_eq!(OrderStatus::Submitted, OrderStatus::Submitted);
    assert_ne!(OrderStatus::Submitted, OrderStatus::Filled);
    assert_eq!(statuses.len(), 7);
}

fn amount(x: f64) -> i64 {
    (x * 10_000.0).round() as i64
}

#[test]
fn test_submit_order_request_creation() {
    let req = SubmitOrderRequest {
        account_id: "user1".to_string(),
        instrument_id: "cu2501".to_string(),
        direction: "BUY".to_string(),
        offset: "OPEN".to_string(),
        volume: amount(10.0),
        price: amount(85000.0),
        order_type: "LIMIT".to_string(),
        time_condition: Some(TimeCondition::GFD),
        volume_condition: Some(VolumeCondition::ANY),
    };
    assert_eq!(req.account_id, "user1");
    assert_eq!(req.instrument_id, "cu2501");
    assert_eq!(req.direction, "BUY");
    assert_eq!(req.offset, "OPEN");
    assert_eq!(req.volume, amount(10.0));
    assert_eq!(req.price, amount(85000.0));
    assert_eq!(req.order_type, "LIMIT");
    assert_eq!(req.time_condition, Some(TimeCondition::GFD));
    assert_eq!(req.volume_condition, Some(VolumeCondition::ANY));
}

#[test]
fn test_submit_order_request_clone() {
    let req = SubmitOrderRequest {
        account_id: "user1".to_string(),
        instrument_id: "cu2501".to_string(),
        direction: "BUY".to_string(),
        offset: "OPEN".to_string(),
        volume: amount(10.0),
        price: amount(85000.0),
        order_type: "LIMIT".to_string(),
        time_condition: None,
        volume_condition: None,
    };
    let cloned = req.clone();
    assert_eq!(req.account_id, cloned.account_id);
    assert_eq!(req.instrument_id, cloned.instrument_id);
}

#[test]
fn test_cancel_order_request_creation() {
    let req = CancelOrderRequest {
        account_id: "user1".to_string(),
        order_id: "O12345".to_string(),
    };
    assert_eq!(req.account_id, "user1");
    assert_eq!(req.order_id, "O12345");
}

#[test]
fn test_cancel_order_request_clone() {
    let req = CancelOrderRequest {
        account_id: "user1".to_string(),
        order_id: "O12345".to_string(),
    };
    let cloned = req.clone();
    assert_eq!(req.account_id, cloned.account_id);
    assert_eq!(req.order_id, cloned.order_id);
}

#[test]
fn test_submit_order_response_success() {
    let resp = SubmitOrderResponse {
        success: true,
        order_id: Some("O12345".to_string()),
        status: Some("submitted".to_string()),
        error_message: None,
        error_code: None,
    };
    assert!(resp.success);
    assert_eq!(resp.order_id, Some("O12345".to_string()));
    assert_eq!(resp.status, Some("submitted".to_string()));
    assert!(resp.error_message.is_none());
    assert!(resp.error_code.is_none());
}

#[test]
fn test_submit_order_response_failure() {
    let resp = SubmitOrderResponse {
        success: false,
        order_id: None,
        status: Some("rejected".to_string()),
        error_message: Some("Insufficient funds".to_string()),
        error_code: Some(4001),
    };
    assert!(!resp.success);
    assert!(resp.order_id.is_none());
    assert_eq!(resp.status, Some("rejected".to_string()));
    assert_eq!(resp.error_message, Some("Insufficient funds".to_string()));
    assert_eq!(resp.error_code, Some(4001));
}

#[test]
fn test_order_statistics_fields() {
    let stats = OrderStatistics {
        total_count: 100,
        pending_count: 20,
        filled_count: 70,
        cancelled_count: 5,
        rejected_count: 5,
    };
    assert_eq!(stats.total_count, 100);
    assert_eq!(stats.pending_count, 20);
    assert_eq!(stats.filled_count, 70);
    assert_eq!(stats.cancelled_count, 5);
    assert_eq!(stats.rejected_count, 5);
    assert!(
        stats.pending_count + stats.filled_count + stats.cancelled_count + stats.rejected_count
            <= stats.total_count
    );
}

#[test]
fn test_order_statistics_clone() {
    let stats = OrderStatistics {
        total_count: 50,
        pending_count: 10,
        filled_count: 30,
        cancelled_count: 5,
        rejected_count: 5,
    };
    let cloned = stats.clone();
    assert_eq!(stats.total_count, cloned.total_count);
    assert_eq!(stats.pending_count, cloned.pending_count);
}

#[test]
fn test_trade_statistics_fields() {
    let stats = TradeStatistics {
        total_count: 1000,
        total_volume: amount(50000.0) as i128,
        total_amount: 4_250_000_000 * 100_000_000,
    };
    assert_eq!(stats.total_count, 1000);
    assert_eq!(stats.total_volume as f64 / 10_000.0, 50000.0);
    assert_eq!(stats.total_amount as f64 / 100_000_000.0, 4250000000.0);
}

#[test]
fn test_trade_statistics_clone() {
    let stats = TradeStatistics {
        total_count: 500,
        total_volume: amount(25000.0) as i128,
        total_amount: 2_125_000_000 * 100_000_000,
    };
    let cloned = stats.clone();
    assert_eq!(stats.total_count, cloned.total_count);
    assert_eq!(stats.total_volume, cloned.total_volume);
}

#[test]
fn test_order_status_copy() {
    let status1 = OrderStatus::Submitted;
    let status2 = status1;
    let status3 = status1.clone();
    assert_eq!(status1, status2);
    assert_eq!(status1, status3);
}

#[test]
fn test_order_status_all_values() {
    let statuses = [
        OrderStatus::PendingRisk,
        OrderStatus::PendingRoute,
        OrderStatus::Submitted,
        OrderStatus::PartiallyFilled,
        OrderStatus::Filled,
        OrderStatus::Cancelled,
        OrderStatus::Rejected,
    ];
    for (i, s1) in statuses.iter().enumerate() {
        for (j, s2) in statuses.iter().enumerate() {
            if i != j {
                assert_ne!(s1, s2);
            }
        }
    }
}
