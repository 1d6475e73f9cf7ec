use motor_monitor::chart::{
    channel_file_name, channel_title, channel_y_label, chart_bounds, RenderError,
};
use motor_monitor::sample::Channel;

#[test]
fn bounds_of_three_points() {
    // 1.0, 3.0 and 2.0 in thousandths; the y axis must top out at 3.0.
    let series = vec![(0i64, 1000i64), (1, 3000), (2, 2000)];
    let b = chart_bounds(&series).unwrap();
    assert_eq!(b.x_min, 0);
    assert_eq!(b.x_max, 2);
    assert_eq!(b.y_max, 3000);
}

#[test]
fn empty_series_is_refused() {
    let series: Vec<(i64, i64)> = Vec::new();
    assert_eq!(chart_bounds(&series), Err(RenderError::EmptySeries));
}

#[test]
fn single_point_is_renderable() {
    let series = vec![(5i64, 7000i64)];
    let b = chart_bounds(&series).unwrap();
    assert_eq!(b.x_min, 5);
    assert_eq!(b.x_max, 5);
    assert_eq!(b.y_max, 7000);
}

#[test]
fn maximum_is_found_anywhere_in_the_series() {
    let series = vec![(0i64, 9000i64), (1, 1000), (2, 4000)];
    assert_eq!(chart_bounds(&series).unwrap().y_max, 9000);
    let series = vec![(0i64, 1000i64), (1, 9000), (2, 4000)];
    assert_eq!(chart_bounds(&series).unwrap().y_max, 9000);
}

#[test]
fn channel_metadata_is_fixed() {
    assert_eq!(channel_file_name(Channel::Power), "current_power.png");
    assert_eq!(channel_file_name(Channel::Cycles), "current_cycles.png");
    assert_eq!(channel_title(Channel::Torque), "Current Torque");
    assert_eq!(channel_y_label(Channel::Speed), "Speed (rpm)");
    assert_eq!(channel_y_label(Channel::Heat), "Heat (degC)");
}
