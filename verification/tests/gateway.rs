use portmapper::gateway::{locate_gateway, Route};
use portmapper::mapping::GatewayAddress;

fn via(ip: u32, metric: u32) -> Route {
    Route { prefix_len: 0, gateway: Some(GatewayAddress { ip }), metric }
}

#[test]
fn no_routes_no_gateway() {
    assert_eq!(locate_gateway(&Vec::new()), None);
}

#[test]
fn default_route_is_told_by_its_prefix_and_gateway() {
    assert!(via(1, 0).is_default());
    assert!(!Route { prefix_len: 0, gateway: None, metric: 0 }.is_default());
    assert!(!Route { prefix_len: 24, gateway: Some(GatewayAddress { ip: 1 }), metric: 0 }.is_default());
}

#[test]
fn routes_on_the_link_have_no_gateway() {
    let routes = vec![
        Route { prefix_len: 0, gateway: None, metric: 1 },
        Route { prefix_len: 24, gateway: None, metric: 1 },
    ];
    assert_eq!(locate_gateway(&routes), None);
}

#[test]
fn narrower_routes_are_not_the_default() {
    let routes = vec![
        Route { prefix_len: 8, gateway: Some(GatewayAddress { ip: 9 }), metric: 0 },
        Route { prefix_len: 32, gateway: Some(GatewayAddress { ip: 8 }), metric: 0 },
    ];
    assert_eq!(locate_gateway(&routes), None);
}

#[test]
fn single_default_route_gives_the_gateway() {
    let routes = vec![
        Route { prefix_len: 24, gateway: None, metric: 0 },
        via(0xC0A8_0001, 100),
    ];
    assert_eq!(locate_gateway(&routes), Some(GatewayAddress { ip: 0xC0A8_0001 }));
}

#[test]
fn lowest_metric_wins() {
    let routes = vec![via(1, 600), via(2, 100), via(3, 300)];
    assert_eq!(locate_gateway(&routes), Some(GatewayAddress { ip: 2 }));
    let routes = vec![via(1, 600), via(3, 300), via(2, 100)];
    assert_eq!(locate_gateway(&routes), Some(GatewayAddress { ip: 2 }));
    let routes = vec![via(2, 100), via(1, 600), via(3, 300)];
    assert_eq!(locate_gateway(&routes), Some(GatewayAddress { ip: 2 }));
}

#[test]
fn first_of_equal_metric_wins() {
    let routes = vec![via(5, 10), via(6, 10), via(7, 10)];
    assert_eq!(locate_gateway(&routes), Some(GatewayAddress { ip: 5 }));
    let routes = vec![via(4, 20), via(5, 10), via(6, 10)];
    assert_eq!(locate_gateway(&routes), Some(GatewayAddress { ip: 5 }));
}

#[test]
fn routes_without_gateway_do_not_count_for_the_metric() {
    let routes = vec![
        Route { prefix_len: 0, gateway: None, metric: 0 },
        via(5, 10),
        Route { prefix_len: 16, gateway: Some(GatewayAddress { ip: 4 }), metric: 1 },
    ];
    assert_eq!(locate_gateway(&routes), Some(GatewayAddress { ip: 5 }));
}
