use mars_data::mars::api::{health_status, RefreshAction, RefreshEvent, RefreshSchedule, WeatherReply};
use mars_data::mars::cli::Command;
use mars_data::mars::report::Report;
use mars_data::mars::weather::{Readings, WeatherSample};

fn sample() -> WeatherSample {
    let readings: Readings = Readings {
        sol: 100,
        min_temp: Some((-80.0f64).to_bits()),
        max_temp: Some((-10.0f64).to_bits()),
        min_ground_temp: Some((-96.0f64).to_bits()),
        max_ground_temp: Some(10.0f64.to_bits()),
        pressure: Some(750.0f64.to_bits()),
        mars_season: Some(5),
        abs_humidity: None,
        wind_speed: None,
    };
    return WeatherSample::parse(&Report::new(), readings);
}

#[test]
fn health_returns_ok() {
    assert_eq!(health_status(), 200);
}

#[test]
fn weather_returns_service_unavailable_without_data() {
    let reply: WeatherReply = WeatherReply::for_latest(None);
    assert_eq!(reply.status(), 503);
    assert_eq!(WeatherReply::unavailable_text(), "Weather data not yet available");
}

#[test]
fn weather_returns_ok_with_data() {
    let reply: WeatherReply = WeatherReply::for_latest(Some(sample()));
    assert_eq!(reply.status(), 200);
    match reply {
        WeatherReply::Sample(s) => assert_eq!(s.sol, 100),
        WeatherReply::Unavailable => panic!("a sample was published"),
    }
}

#[test]
fn refresher_fetches_at_once_and_waits_one_interval() {
    let schedule: RefreshSchedule = RefreshSchedule::new(3600);
    assert_eq!(schedule.next(RefreshEvent::Started), RefreshAction::Fetch);
    assert_eq!(schedule.next(RefreshEvent::Fetched), RefreshAction::Publish);
    assert_eq!(schedule.next(RefreshEvent::Published), RefreshAction::Sleep(3600));
    assert_eq!(schedule.next(RefreshEvent::FetchFailed), RefreshAction::Sleep(3600));
    assert_eq!(schedule.next(RefreshEvent::Slept), RefreshAction::Fetch);
    assert_eq!(schedule.next(RefreshEvent::PublishRejected), RefreshAction::Stop);
}

#[test]
fn command_follows_first_argument() {
    assert_eq!(Command::from_arg(Some("serve")), Command::Serve);
    assert_eq!(Command::from_arg(Some("--json")), Command::Json);
    assert_eq!(Command::from_arg(Some("report")), Command::Report);
    assert_eq!(Command::from_arg(Some("")), Command::Report);
    assert_eq!(Command::from_arg(None), Command::Report);
}
