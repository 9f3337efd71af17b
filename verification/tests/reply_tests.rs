use film_record_lite::error::AppError;
use film_record_lite::models::{FilmRecord, Rating, RatingUpdate};
use film_record_lite::routes::{
    actor_search_reply, batch_reply, film_delete_reply, film_not_found, film_update_reply,
    listing_reply, rating_update_reply, title_delete_reply, title_search_reply, ActorQuery,
    TitleQuery,
};

fn film(id: i64, title: &str) -> FilmRecord {
    FilmRecord {
        id,
        title: title.to_string(),
        actors: None,
        plot: None,
        review: None,
        rating: None,
        record_date: None,
        created_at: None,
        updated_at: None,
    }
}

fn summary(title: &str) -> String {
    format!("**{title}**\n- 主演: 未记录\n- 剧情: 未记录\n- 评价: 未记录\n- 评分: 未评分/10\n- 记录日期: 未记录")
}

#[test]
fn batch_reply_counts() {
    let r = batch_reply(&vec![film(1, "A"), film(2, "B")]);
    assert_eq!(r.message, "已成功添加 2 部电影记录");
    assert_eq!(r.films, Some(vec![summary("A"), summary("B")]));
    assert!(r.data);
    assert_eq!(r.count, Some(2));
}

#[test]
fn title_search_found_and_not_found() {
    let q = TitleQuery { title: "星".to_string() };
    let r = title_search_reply(&q, &vec![]);
    assert_eq!(r.message, "未找到标题包含「星」的电影");
    assert_eq!(r.films, Some(vec![]));
    assert!(!r.data);
    let r = title_search_reply(&q, &vec![film(1, "星际穿越")]);
    assert_eq!(r.message, "找到 1 部电影");
    assert_eq!(r.films, Some(vec![summary("星际穿越")]));
    assert!(r.data);
}

#[test]
fn rating_update_replies() {
    let u = RatingUpdate { title: "X".to_string(), rating: Rating { bits: 0, display: "0".to_string() } };
    let r = rating_update_reply(&u, &vec![]);
    assert_eq!(r.message, "未找到标题包含「X」的电影");
    assert!(r.films.is_none());
    assert!(!r.data);
    let r = rating_update_reply(&u, &vec![film(4, "X1")]);
    assert_eq!(r.message, "已更新评分");
    assert_eq!(r.films, Some(vec![summary("X1")]));
}

fn not_found_detail(e: AppError) -> String {
    match e {
        AppError::NotFound(d) => d,
        other => panic!("unexpected {other:?}"),
    }
}

#[test]
fn film_update_and_delete_replies() {
    assert_eq!(not_found_detail(film_not_found(17)), "未找到 ID 为 17 的电影");
    assert_eq!(not_found_detail(film_update_reply(-3, &None).unwrap_err()), "未找到 ID 为 -3 的电影");
    let r = film_update_reply(5, &Some(film(5, "Z"))).unwrap();
    assert_eq!(r.message, "已更新电影信息");
    assert_eq!(r.film, Some(summary("Z")));
    assert!(r.data);
    assert_eq!(not_found_detail(film_delete_reply(9, false).unwrap_err()), "未找到 ID 为 9 的电影");
    let r = film_delete_reply(9, true).unwrap();
    assert_eq!(r.message, "已删除电影记录 (ID: 9)");
    assert_eq!(r.deleted, Some(true));
    assert_eq!(r.count, Some(1));
}

#[test]
fn title_delete_replies() {
    let q = TitleQuery { title: "猫".to_string() };
    let r = title_delete_reply(&q, 0);
    assert_eq!(r.message, "未找到标题包含「猫」的电影");
    assert_eq!(r.deleted, Some(false));
    assert_eq!(r.count, Some(0));
    let r = title_delete_reply(&q, 3);
    assert_eq!(r.message, "已删除 3 部标题包含「猫」的电影");
    assert_eq!(r.deleted, Some(true));
    assert_eq!(r.count, Some(3));
}

#[test]
fn actor_search_replies() {
    let q = ActorQuery { actor: "周星驰".to_string() };
    let r = actor_search_reply(&q, &vec![]);
    assert_eq!(r.message, "未找到「周星驰」主演的电影");
    assert_eq!(r.films, Some(vec![]));
    let r = actor_search_reply(&q, &vec![film(1, "功夫"), film(2, "少林足球")]);
    assert_eq!(r.message, "「周星驰」主演的电影 (2 部)");
    assert!(r.data);
}

#[test]
fn listing_replies() {
    let r = listing_reply(&vec![], 12, 20, 40);
    assert_eq!(r.message, "暂无电影记录");
    assert_eq!(r.total, Some(0));
    assert_eq!(r.limit, Some(20));
    assert_eq!(r.offset, Some(40));
    assert_eq!(r.films, Some(vec![]));
    assert!(r.data);
    let r = listing_reply(&vec![film(1, "a"), film(2, "b")], 12, 2, 10);
    assert_eq!(r.message, "所有电影记录 (共 12 部，显示 11-12 部)");
    assert_eq!(r.total, Some(12));
    assert_eq!(r.limit, Some(2));
    assert_eq!(r.offset, Some(10));
}
