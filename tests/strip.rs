use rtwang::enemy::Enemy;
use rtwang::led::Led;
use rtwang::led_string::LedString;
use rtwang::player::Player;
use rtwang::screensaver;

fn filled(length: u32, rgb: [u8; 3]) -> LedString {
    let mut s = LedString::new([0, 0, 0], length);
    for i in 0..s.len() {
        s.set_rgb(i, rgb);
    }
    s
}

fn screensaver_hue(time: u32) -> u8 {
    ((20.0 + ((time as f32 / 5000.0).to_radians().sin() * 255.0 + 1.0) * 33.0) % 256.0) as u8
}

#[test]
fn new_strip_holds_background() {
    let s = LedString::new([1, 2, 3], 5);
    assert_eq!(s.len(), 5);
    for i in 0..5 {
        assert_eq!(s.get(i), Led::new(1, 2, 3));
    }
    assert_eq!(s.background(), Led::new(1, 2, 3));
}

#[test]
fn empty_strip() {
    let s = LedString::new([9, 9, 9], 0);
    assert_eq!(s.len(), 0);
}

#[test]
fn clear_restores_background() {
    let mut s = LedString::new([4, 5, 6], 10);
    s.set_rgb(3, [200, 0, 0]);
    s.set(7, Led::new(0, 9, 0));
    assert_eq!(s.get(3), Led::new(200, 0, 0));
    assert_eq!(s.get(7), Led::new(0, 9, 0));
    s.clear();
    for i in 0..10 {
        assert_eq!(s.get(i), Led::new(4, 5, 6));
    }
    assert_eq!(s.len(), 10);
}

#[test]
fn scale_exact_values() {
    let mut s = filled(3, [255, 100, 0]);
    s.scale(1, 250);
    assert_eq!(s.get(1), Led::new(250, 98, 0));
    assert_eq!(s.get(0), Led::new(255, 100, 0));
    s.scale(2, 255);
    assert_eq!(s.get(2), Led::new(255, 100, 0));
    s.scale(0, 0);
    assert_eq!(s.get(0), Led::new(0, 0, 0));
}

#[test]
fn repeated_fade_never_brightens() {
    let mut s = filled(1, [255, 17, 1]);
    let mut prev = s.get(0);
    for _ in 0..2000 {
        s.scale(0, 250);
        let cur = s.get(0);
        assert!(cur.r <= prev.r && cur.g <= prev.g && cur.b <= prev.b);
        if prev.r > 0 {
            assert!(cur.r < prev.r);
        }
        prev = cur;
    }
    assert_eq!(prev, Led::new(0, 0, 0));
}

#[test]
fn hsv_full_colour_sectors() {
    let mut s = LedString::new([0, 0, 0], 4);
    s.set_hsv(0, 0, 255, 255);
    assert_eq!(s.get(0), Led::new(255, 0, 0));
    s.set_hsv(1, 85, 255, 255);
    let g = s.get(1);
    assert_eq!(g.g, 255);
    assert!(g.g >= g.r && g.g >= g.b);
    s.set_hsv(2, 170, 255, 255);
    let b = s.get(2);
    assert_eq!(b.b, 255);
    assert!(b.b >= b.r && b.b >= b.g);
    s.set_hsv(3, 240, 255, 255);
    let r = s.get(3);
    assert_eq!(r.r, 255);
    assert_eq!(r.g, 0);
}

#[test]
fn hsv_exact_values() {
    assert_eq!(Led::from_hsv(30, 255, 255), Led::new(255, 180, 0));
    assert_eq!(Led::from_hsv(200, 0, 77), Led::new(77, 77, 77));
    let mut c = Led::new(1, 1, 1);
    c.set_hsv(0, 255, 150);
    assert_eq!(c, Led::new(150, 0, 0));
    c.set_rgb([7, 8, 9]);
    assert_eq!(c, Led::from_rgb([7, 8, 9]));
    c.nscale8(128);
    assert_eq!(c, Led::new(3, 4, 4));
}

#[test]
fn screensaver_lights_lane_one_at_250() {
    let mut s = filled(144, [200, 100, 50]);
    let hue = screensaver_hue(250);
    screensaver::tick(&mut s, 250, hue);
    let lit = Led::from_hsv(hue, 255, 150);
    for i in 0..144 {
        if i % 10 == 1 {
            assert_eq!(s.get(i), lit);
        } else {
            assert_eq!(s.get(i), Led::new(196, 98, 49));
        }
    }
}

#[test]
fn screensaver_lane_moves_with_time() {
    let mut s = LedString::new([0, 0, 0], 30);
    screensaver::tick(&mut s, 2250, 0);
    let lit = Led::from_hsv(0, 255, 150);
    assert_eq!(s.get(9), lit);
    assert_eq!(s.get(19), lit);
    assert_eq!(s.get(1), Led::new(0, 0, 0));
    screensaver::tick(&mut s, 2500, 0);
    assert_eq!(s.get(0), lit);
    assert_eq!(s.get(9), Led::new(147, 0, 0));
}

#[test]
fn screensaver_is_deterministic() {
    let mut a = filled(50, [10, 220, 33]);
    let mut b = filled(50, [10, 220, 33]);
    for t in [0u32, 17, 250, 1000, 123456] {
        let hue = screensaver_hue(t);
        screensaver::tick(&mut a, t, hue);
        screensaver::tick(&mut b, t, hue);
        for i in 0..50 {
            assert_eq!(a.get(i), b.get(i));
        }
    }
}

#[test]
fn player_starts_idle_at_zero() {
    let p = Player::new(1);
    assert_eq!(p.position(), 0);
    assert_eq!(p.direction(), 1);
    assert!(!p.is_attacking());
    assert_eq!(p.attack_width(), 8);
    assert_eq!(p.attack_duration(), 500);
    assert_eq!(p.speed, 0);
}

#[test]
fn player_position_is_clamped() {
    let s = LedString::new([0, 0, 0], 144);
    let mut p = Player::new(1);
    p.speed = 1000;
    p.tick(&s, 0);
    assert_eq!(p.position(), 143);
    p.speed = -5;
    p.tick(&s, 1);
    assert_eq!(p.position(), 138);
    p.speed = i32::MIN;
    p.tick(&s, 2);
    assert_eq!(p.position(), 0);
    let mut q = Player::new(-1);
    q.speed = i32::MIN;
    q.tick(&s, 0);
    assert_eq!(q.position(), 143);
    q.speed = 2;
    q.tick(&s, 1);
    assert_eq!(q.position(), 141);
}

#[test]
fn player_idle_draw_is_green() {
    let mut s = LedString::new([0, 0, 0], 10);
    let mut p = Player::new(1);
    p.speed = 4;
    p.tick(&s, 0);
    p.draw(&mut s, 0);
    for i in 0..10 {
        if i == 4 {
            assert_eq!(s.get(i), Led::new(0, 255, 0));
        } else {
            assert_eq!(s.get(i), Led::new(0, 0, 0));
        }
    }
}

#[test]
fn attack_holds_then_releases() {
    let s = LedString::new([0, 0, 0], 144);
    let mut p = Player::new(1);
    p.speed = 20;
    p.tick(&s, 0);
    assert_eq!(p.position(), 20);
    p.attack(2000);
    assert!(p.is_attacking());
    p.tick(&s, 2000 + 500 - 1);
    assert!(p.is_attacking());
    assert_eq!(p.position(), 20);
    p.tick(&s, 2000 + 500);
    assert!(p.is_attacking());
    p.tick(&s, 2000 + 500 + 1);
    assert!(!p.is_attacking());
    assert_eq!(p.position(), 20);
    p.tick(&s, 2000 + 500 + 2);
    assert_eq!(p.position(), 40);
}

#[test]
fn attack_band_scenario() {
    let mut s = LedString::new([0, 0, 0], 144);
    let mut p = Player::new(1);
    p.speed = 70;
    p.tick(&s, 0);
    assert_eq!(p.position(), 70);
    p.speed = 3;
    p.attack(1000);
    p.draw(&mut s, 1000);
    for i in 67..=73 {
        if i == 70 {
            assert_eq!(s.get(i), Led::new(255, 255, 255));
        } else {
            assert_eq!(s.get(i), Led::new(0, 0, 100));
        }
    }
    assert_eq!(s.get(66), Led::new(255, 255, 255));
    assert_eq!(s.get(74), Led::new(255, 255, 255));
    assert_eq!(s.get(65), Led::new(0, 0, 0));
    assert_eq!(s.get(75), Led::new(0, 0, 0));

    let mut prev_level = 100;
    for t in [1100u32, 1250, 1400, 1500] {
        s.clear();
        p.draw(&mut s, t);
        let level = s.get(67).b;
        assert!(level < prev_level);
        assert_eq!(s.get(73).b, level);
        prev_level = level;
    }
    assert_eq!(prev_level, 5);
    s.clear();
    p.draw(&mut s, 1250);
    assert_eq!(s.get(68), Led::new(0, 0, 53));
    assert_eq!(s.get(70), Led::new(0, 255, 0));
    assert_eq!(s.get(66), Led::new(0, 0, 255));

    p.tick(&s, 1000 + 501);
    assert!(!p.is_attacking());
    assert_eq!(p.position(), 70);
    p.tick(&s, 1000 + 502);
    assert_eq!(p.position(), 73);
}

#[test]
fn attack_band_at_strip_end_is_cut() {
    let mut s = LedString::new([0, 0, 0], 6);
    let mut p = Player::new(1);
    p.attack(0);
    p.draw(&mut s, 0);
    assert_eq!(s.get(0), Led::new(255, 255, 255));
    for i in 1..4 {
        assert_eq!(s.get(i), Led::new(0, 0, 100));
    }
    assert_eq!(s.get(4), Led::new(255, 255, 255));
    assert_eq!(s.get(5), Led::new(0, 0, 0));
}

#[test]
fn enemy_moves_and_draws() {
    let mut s = LedString::new([0, 0, 0], 144);
    let mut e = Enemy::new(100, -1, 20);
    e.tick(&s, 0);
    assert_eq!(e.position(), 80);
    e.draw(&mut s);
    assert_eq!(s.get(80), Led::new(255, 0, 0));
    e.speed = 500;
    e.tick(&s, 1);
    assert_eq!(e.position(), 0);
    e.speed = -500;
    e.tick(&s, 2);
    assert_eq!(e.position(), 143);
}
