use alfredgf::config_structs::AFWindowConfig;
use alfredgf::util_structs::AFSize2D;

#[test]
fn test() -> () {
    let size: AFSize2D = AFSize2D { width: 1280, height: 720 };
    let config: AFWindowConfig = AFWindowConfig {
        icon: None,
        start_size: size,
        min_size: size,
        max_size: size,
        resizeable: false,
        visible: true,
        always_on_top: false,
        maximized: false,
    };
    assert_eq!(config.start_size.width, 1280);
    assert_eq!(config.start_size.height, 720);
}
