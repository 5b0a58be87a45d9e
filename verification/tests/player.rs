use tinlib::player::{
    is_colored, next_channel, Player, PlayerKey, Rgba, BUFFER_SIZE, COLOR_SIZE, WINDOW_HEIGHT,
    WINDOW_WIDTH,
};

#[test]
fn test_player_new() {
    let player = Player::new();
    assert_eq!(BUFFER_SIZE, (WINDOW_WIDTH * WINDOW_HEIGHT * 4) as usize);
    assert_eq!(player.buffer.len(), BUFFER_SIZE);
    assert!(player
        .buffer
        .chunks_exact(COLOR_SIZE)
        .all(|pixel| pixel == [0x00, 0x00, 0x00, 0xFF]));
    assert_eq!(player.last_color, Rgba::black());
    assert!(!player.should_exit);
    assert!(!player.is_paused);
}

#[test]
fn test_next_channel_cycles() {
    assert_eq!(next_channel(0), 1);
    assert_eq!(next_channel(254), 255);
    assert_eq!(next_channel(255), 0);
}

#[test]
fn test_rgba_next_keeps_alpha() {
    let color = Rgba { red: 0, green: 255, blue: 7, alpha: 0xFF };
    assert_eq!(
        color.next(),
        Rgba { red: 1, green: 0, blue: 8, alpha: 0xFF }
    );
    assert_eq!(color.bytes(), [0, 255, 7, 0xFF]);
}

#[test]
fn test_is_colored_alternates() {
    assert!(is_colored(0));
    assert!(is_colored(15));
    assert!(!is_colored(16));
    assert!(is_colored(32));
    assert!(!is_colored(16 * 640));
    assert!(is_colored(16 * 640 + 16));
}

#[test]
fn test_player_update_paints_the_checkerboard() {
    let mut player = Player::new();
    player.update();
    assert_eq!(
        player.last_color,
        Rgba { red: 1, green: 1, blue: 1, alpha: 0xFF }
    );
    for (i, pixel) in player.buffer.chunks_exact(COLOR_SIZE).enumerate() {
        let x = i % 640;
        let y = i / 640;
        let expected: [u8; 4] = if (x / 16) % 2 == (y / 16) % 2 {
            [1, 1, 1, 0xFF]
        } else {
            [0, 0, 0, 0xFF]
        };
        assert_eq!(pixel, expected);
    }
}

#[test]
fn test_player_update_leaves_a_partial_pixel() {
    let mut player = Player::new();
    player.buffer = vec![9; 10];
    player.update();
    assert_eq!(player.buffer, vec![1, 1, 1, 0xFF, 1, 1, 1, 0xFF, 9, 9]);
}

#[test]
fn test_player_handle_input() {
    let mut player = Player::new();
    player.handle_input(true, false, PlayerKey::Space);
    assert!(player.is_paused);
    player.handle_input(true, true, PlayerKey::Space);
    assert!(player.is_paused);
    player.handle_input(false, false, PlayerKey::Space);
    assert!(player.is_paused);
    player.handle_input(true, false, PlayerKey::Other);
    assert!(player.is_paused && !player.should_exit);
    player.handle_input(true, false, PlayerKey::Space);
    assert!(!player.is_paused);
    player.handle_input(true, false, PlayerKey::Escape);
    assert!(player.should_exit);
}

#[test]
fn test_player_handle_update_respects_pause() {
    let mut player = Player::new();
    player.handle_input(true, false, PlayerKey::Space);
    let before = player.clone();
    player.handle_update();
    assert_eq!(player, before);
    player.handle_input(true, false, PlayerKey::Space);
    player.handle_update();
    assert_eq!(
        player.last_color,
        Rgba { red: 1, green: 1, blue: 1, alpha: 0xFF }
    );
}
